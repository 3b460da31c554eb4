//! The prompt templates sent to the AI providers, and their rendering.

use crate::text::from_chars;
use crate::text::to_chars;
use vstd::prelude::*;

verus! {

/// System instruction of the scene-writing chat.
pub const CHAT_SYSTEM: &'static str =
    "You're a specialist in dreams. Answer in under 250 characters. Never mention race, ethnicity, sex, or gender. Use simple English. Each of the three words in the brackets ([]) must be in the final output somewhere.";

/// User message of the scene-writing chat; `{{words}}` stands for the words.
pub const CHAT_USER: &'static str =
    "Describe me a dreamlike scene involving [{{words}}]. DO NOT PUT QUOTES AROUND YOUR ANSWER.";

/// Image request; `{{prompt}}` stands for the scene and `{{words}}` for the
/// words that must be visible.
pub const IMAGE_ENHANCEMENT: &'static str =
    "Create a surreal, dreamlike digital artwork based on this scene: {{prompt}}\n\nVISUAL REQUIREMENTS:\n- Must include visual representations of: [{{words}}]\n- Each word must be clearly identifiable in the image\n- Style: Ethereal, soft lighting, mystical atmosphere, dreamlike quality\n- Composition: Balanced, visually cohesive\n- Color palette: Otherworldly, harmonious\n\nSTRICT RULES:\n- DO NOT include any text, words, letters, or writing in the image\n- NO TEXT OVERLAYS OR LABELS\n- Visual elements only";

/// System instruction of the text-detection check.
pub const QA_SYSTEM: &'static str =
    "You are a text detection system. Analyze the image and determine if it contains any text, letters, numbers, words, or writing of any kind. This includes overlays, labels, watermarks, or any written content.";

/// User message of the text-detection check.
pub const QA_USER: &'static str =
    "Does this image contain any text, letters, words, or writing? Respond with true if any text is present, false if it's purely visual with no text.";

/// The placeholder of a key: the key between doubled braces.
pub open spec fn placeholder(key: Seq<char>) -> Seq<char> {
    seq!['{', '{'] + key + seq!['}', '}']
}

/// `text` with every occurrence of the non-empty `from` replaced by `to`,
/// occurrences taken from left to right without overlap.
pub open spec fn replace_all(text: Seq<char>, from: Seq<char>, to: Seq<char>) -> Seq<char>
    decreases text.len(),
{
    if from.len() == 0 || text.len() < from.len() {
        text
    } else if text.subrange(0, from.len() as int) == from {
        to + replace_all(text.subrange(from.len() as int, text.len() as int), from, to)
    } else {
        seq![text[0]] + replace_all(text.drop_first(), from, to)
    }
}

/// The template after each variable's placeholder has been replaced by its
/// value, one variable after the other in the given order.
pub open spec fn render_model(template: Seq<char>, vars: Seq<(Seq<char>, Seq<char>)>) -> Seq<
    char,
>
    decreases vars.len(),
{
    if vars.len() == 0 {
        template
    } else {
        render_model(
            replace_all(template, placeholder(vars[0].0), vars[0].1),
            vars.drop_first(),
        )
    }
}

/// The keys and values of a list of variables.
pub open spec fn vars_model(vars: Seq<(&str, &str)>) -> Seq<(Seq<char>, Seq<char>)> {
    Seq::new(vars.len(), |i: int| (vars[i].0@, vars[i].1@))
}

fn matches_at(text: &Vec<char>, start: usize, pattern: &Vec<char>) -> (r: bool)
    requires
        start <= text.len(),
    ensures
        r == (start + pattern@.len() <= text@.len() && text@.subrange(
            start as int,
            start + pattern@.len(),
        ) == pattern@),
{
    if pattern.len() > text.len() - start {
        return false;
    }
    let mut k: usize = 0;
    while k < pattern.len()
        invariant
            k <= pattern.len(),
            start + pattern.len() <= text.len(),
            forall|j: int| 0 <= j < k ==> text@[start + j] == pattern@[j],
        decreases pattern.len() - k,
    {
        if text[start + k] != pattern[k] {
            assert(text@.subrange(start as int, start + pattern@.len())[k as int] != pattern@[k as int]);
            return false;
        }
        k += 1;
    }
    assert(text@.subrange(start as int, start + pattern@.len()) =~= pattern@);
    true
}

fn replace_chars(text: &Vec<char>, from: &Vec<char>, to: &Vec<char>) -> (r: Vec<char>)
    requires
        from@.len() > 0,
    ensures
        r@ == replace_all(text@, from@, to@),
{
    let mut out: Vec<char> = Vec::new();
    let mut i: usize = 0;
    assert(text@.subrange(0, text@.len() as int) =~= text@);
    while i < text.len()
        invariant
            i <= text.len(),
            from@.len() > 0,
            out@ + replace_all(text@.subrange(i as int, text@.len() as int), from@, to@)
                == replace_all(text@, from@, to@),
        decreases text.len() - i,
    {
        let ghost rest = text@.subrange(i as int, text@.len() as int);
        if matches_at(text, i, from) {
            let ghost before = out@;
            let mut k: usize = 0;
            while k < to.len()
                invariant
                    k <= to.len(),
                    out@ == before + to@.subrange(0, k as int),
                decreases to.len() - k,
            {
                out.push(to[k]);
                assert(out@ =~= before + to@.subrange(0, k + 1));
                k += 1;
            }
            proof {
                assert(to@.subrange(0, to@.len() as int) =~= to@);
                assert(rest.subrange(0, from@.len() as int) =~= text@.subrange(
                    i as int,
                    i + from@.len(),
                ));
                assert(rest.subrange(from@.len() as int, rest.len() as int) =~= text@.subrange(
                    i + from@.len(),
                    text@.len() as int,
                ));
                assert(before + to@ + replace_all(
                    text@.subrange(i + from@.len(), text@.len() as int),
                    from@,
                    to@,
                ) =~= before + (to@ + replace_all(
                    text@.subrange(i + from@.len(), text@.len() as int),
                    from@,
                    to@,
                )));
            }
            i += from.len();
        } else {
            let ghost before = out@;
            out.push(text[i]);
            proof {
                assert(rest.drop_first() =~= text@.subrange(i + 1, text@.len() as int));
                assert(rest[0] == text@[i as int]);
                if rest.len() < from@.len() {
                    assert(rest.drop_first().len() < from@.len());
                    assert(rest =~= seq![rest[0]] + rest.drop_first());
                } else {
                    assert(rest.subrange(0, from@.len() as int) =~= text@.subrange(
                        i as int,
                        i + from@.len(),
                    ));
                }
                assert(replace_all(rest, from@, to@) == seq![rest[0]] + replace_all(
                    rest.drop_first(),
                    from@,
                    to@,
                ));
                assert(before.push(text@[i as int]) + replace_all(
                    rest.drop_first(),
                    from@,
                    to@,
                ) =~= before + (seq![rest[0]] + replace_all(rest.drop_first(), from@, to@)));
            }
            i += 1;
        }
    }
    proof {
        assert(text@.subrange(i as int, text@.len() as int) =~= Seq::<char>::empty());
        assert(out@ + Seq::<char>::empty() =~= out@);
    }
    out
}

fn placeholder_chars(key: &str) -> (r: Vec<char>)
    ensures
        r@ == placeholder(key@),
{
    let name = to_chars(key);
    let mut out: Vec<char> = Vec::new();
    out.push('{');
    out.push('{');
    let mut k: usize = 0;
    while k < name.len()
        invariant
            k <= name.len(),
            out@ == seq!['{', '{'] + name@.subrange(0, k as int),
        decreases name.len() - k,
    {
        out.push(name[k]);
        assert(out@ =~= seq!['{', '{'] + name@.subrange(0, k + 1));
        k += 1;
    }
    out.push('}');
    out.push('}');
    assert(name@.subrange(0, name@.len() as int) =~= name@);
    assert(out@ =~= placeholder(key@));
    out
}

/// Replace `{{key}}` placeholders in a template string.
pub fn render(template: &str, vars: &[(&str, &str)]) -> (r: String)
    ensures
        r@ == render_model(template@, vars_model(vars@)),
{
    let mut text = to_chars(template);
    let mut i: usize = 0;
    assert(vars_model(vars@).subrange(0, vars@.len() as int) =~= vars_model(vars@));
    while i < vars.len()
        invariant
            i <= vars.len(),
            render_model(text@, vars_model(vars@).subrange(i as int, vars@.len() as int))
                == render_model(template@, vars_model(vars@)),
        decreases vars.len() - i,
    {
        let from = placeholder_chars(vars[i].0);
        let to = to_chars(vars[i].1);
        let ghost rest = vars_model(vars@).subrange(i as int, vars@.len() as int);
        proof {
            assert(rest[0] == (vars@[i as int].0@, vars@[i as int].1@));
            assert(rest.drop_first() =~= vars_model(vars@).subrange(i + 1, vars@.len() as int));
        }
        text = replace_chars(&text, &from, &to);
        i += 1;
    }
    from_chars(&text)
}

} // verus!
