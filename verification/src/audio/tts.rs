//! Text-to-speech preparation: which voice each speaker gets, and how a line
//! of dialogue is cleaned up before a speech engine reads it (math symbols
//! spelled out, emoji and markdown dropped). The platform layer voices the
//! prepared utterance.
use crate::chars::{all_blank, chars_of, is_blank, push_char, str_eq};
use vstd::prelude::*;

verus! {

/// Pitch and rate for one speaker, on a 0-200 scale (100 = normal).
pub struct VoiceConfig {
    pub pitch: u32,
    pub rate: u32,
}

/// The (pitch, rate) a speaker is voiced with.
pub open spec fn voice_spec(speaker: Seq<char>) -> (u32, u32) {
    if speaker == "Sparky"@ {
        (160, 110)
    } else if speaker == "Mommy"@ {
        (120, 95)
    } else if speaker == "Professor Gizmo"@ {
        (80, 85)
    } else if speaker == "Bolt the Shopkeeper"@ {
        (100, 105)
    } else if speaker == "???"@ {
        (70, 70)
    } else if speaker == "B0RK.exe"@ {
        (180, 130)
    } else if speaker == "Old Oak"@ {
        (60, 70)
    } else {
        (100, 100)
    }
}

fn voice_for_speaker(speaker: &str) -> (v: VoiceConfig)
    ensures
        (v.pitch, v.rate) == voice_spec(speaker@),
{
    if str_eq(speaker, "Sparky") {
        VoiceConfig { pitch: 160, rate: 110 }
    } else if str_eq(speaker, "Mommy") {
        VoiceConfig { pitch: 120, rate: 95 }
    } else if str_eq(speaker, "Professor Gizmo") {
        VoiceConfig { pitch: 80, rate: 85 }
    } else if str_eq(speaker, "Bolt the Shopkeeper") {
        VoiceConfig { pitch: 100, rate: 105 }
    } else if str_eq(speaker, "???") {
        VoiceConfig { pitch: 70, rate: 70 }
    } else if str_eq(speaker, "B0RK.exe") {
        VoiceConfig { pitch: 180, rate: 130 }
    } else if str_eq(speaker, "Old Oak") {
        VoiceConfig { pitch: 60, rate: 70 }
    } else {
        VoiceConfig { pitch: 100, rate: 100 }
    }
}

/// Every `c` in `s` replaced by `r`.
pub open spec fn replace_char(s: Seq<char>, c: char, r: Seq<char>) -> Seq<char>
    decreases s.len(),
{
    if s.len() == 0 {
        Seq::empty()
    } else {
        (if s[0] == c { r } else { seq![s[0]] }) + replace_char(s.drop_first(), c, r)
    }
}

/// Every occurrence of `pat` in `s`, scanning left to right without overlap,
/// replaced by `r`.
pub open spec fn replace_pat(s: Seq<char>, pat: Seq<char>, r: Seq<char>) -> Seq<char>
    decreases s.len(),
{
    if s.len() == 0 {
        Seq::empty()
    } else if pat.len() > 0 && s.len() >= pat.len() && s.subrange(0, pat.len() as int) == pat {
        r + replace_pat(s.skip(pat.len() as int), pat, r)
    } else {
        seq![s[0]] + replace_pat(s.drop_first(), pat, r)
    }
}

/// Emoji and markdown marks a speech engine should not read out.
pub open spec fn unspoken_marks() -> Seq<char> {
    seq!['\u{1F916}', '\u{1F680}', '\u{2B50}', '\u{1F31F}', '\u{1F36D}', '\u{1F4CD}', '#']
}

/// A line cleaned for speech: math symbols spelled out, unspoken marks dropped.
pub open spec fn clean_spec(text: Seq<char>) -> Seq<char> {
    let a = replace_char(text, '\u{00d7}', "times"@);
    let b = replace_char(a, '\u{00f7}', "divided by"@);
    let c = replace_char(b, '+', " plus "@);
    let d = replace_pat(c, " - "@, " minus "@);
    let e = replace_char(d, '\u{2212}', "minus"@);
    e.filter(|ch: char| !unspoken_marks().contains(ch))
}

fn replace_char_vec(s: &Vec<char>, c: char, r: &Vec<char>) -> (out: Vec<char>)
    ensures
        out@ == replace_char(s@, c, r@),
{
    let mut out: Vec<char> = Vec::new();
    let mut i: usize = 0;
    proof {
        assert(s@.skip(0) =~= s@);
    }
    while i < s.len()
        invariant
            0 <= i <= s@.len(),
            out@ + replace_char(s@.skip(i as int), c, r@) == replace_char(s@, c, r@),
        decreases s@.len() - i,
    {
        let ghost rest = s@.skip(i as int);
        proof {
            assert(rest[0] == s@[i as int]);
            assert(rest.drop_first() =~= s@.skip(i + 1));
        }
        let ghost before = out@;
        if s[i] == c {
            let mut j: usize = 0;
            while j < r.len()
                invariant
                    0 <= j <= r@.len(),
                    out@ == before + r@.subrange(0, j as int),
                decreases r@.len() - j,
            {
                out.push(r[j]);
                j = j + 1;
                proof {
                    assert(out@ =~= before + r@.subrange(0, j as int));
                }
            }
            proof {
                assert(r@.subrange(0, j as int) =~= r@);
                assert(before + r@ + replace_char(s@.skip(i + 1), c, r@) =~= before + (r@
                    + replace_char(s@.skip(i + 1), c, r@)));
            }
        } else {
            out.push(s[i]);
            proof {
                assert(out@ =~= before + seq![s@[i as int]]);
                assert(before + seq![s@[i as int]] + replace_char(s@.skip(i + 1), c, r@) =~= before
                    + (seq![s@[i as int]] + replace_char(s@.skip(i + 1), c, r@)));
            }
        }
        i = i + 1;
    }
    proof {
        assert(s@.skip(i as int) =~= Seq::<char>::empty());
        assert(out@ + Seq::<char>::empty() =~= out@);
    }
    out
}

fn starts_with_at(s: &Vec<char>, i: usize, pat: &Vec<char>) -> (b: bool)
    requires
        i <= s@.len(),
    ensures
        b == (pat@.len() > 0 && s@.skip(i as int).len() >= pat@.len() && s@.skip(i as int).subrange(
            0,
            pat@.len() as int,
        ) == pat@),
{
    if pat.len() == 0 || s.len() - i < pat.len() {
        return false;
    }
    let mut k: usize = 0;
    while k < pat.len()
        invariant
            0 <= k <= pat@.len(),
            pat@.len() > 0,
            i + pat@.len() <= s@.len(),
            forall|m: int| 0 <= m < k ==> s@[i + m] == pat@[m],
        decreases pat@.len() - k,
    {
        assert(i + k < s.len());
        let idx: usize = i + k;
        if s[idx] != pat[k] {
            proof {
                assert(s@.skip(i as int).subrange(0, pat@.len() as int)[k as int] != pat@[k as int]);
            }
            return false;
        }
        k = k + 1;
    }
    proof {
        assert(s@.skip(i as int).subrange(0, pat@.len() as int) =~= pat@);
    }
    true
}

fn replace_pat_vec(s: &Vec<char>, pat: &Vec<char>, r: &Vec<char>) -> (out: Vec<char>)
    ensures
        out@ == replace_pat(s@, pat@, r@),
{
    let mut out: Vec<char> = Vec::new();
    let mut i: usize = 0;
    proof {
        assert(s@.skip(0) =~= s@);
    }
    while i < s.len()
        invariant
            0 <= i <= s@.len(),
            out@ + replace_pat(s@.skip(i as int), pat@, r@) == replace_pat(s@, pat@, r@),
        decreases s@.len() - i,
    {
        let ghost rest = s@.skip(i as int);
        let ghost before = out@;
        if starts_with_at(s, i, pat) {
            let mut j: usize = 0;
            while j < r.len()
                invariant
                    0 <= j <= r@.len(),
                    out@ == before + r@.subrange(0, j as int),
                decreases r@.len() - j,
            {
                out.push(r[j]);
                j = j + 1;
                proof {
                    assert(out@ =~= before + r@.subrange(0, j as int));
                }
            }
            proof {
                assert(r@.subrange(0, j as int) =~= r@);
                assert(rest.skip(pat@.len() as int) =~= s@.skip(i + pat@.len()));
                assert(before + r@ + replace_pat(s@.skip(i + pat@.len()), pat@, r@) =~= before
                    + (r@ + replace_pat(s@.skip(i + pat@.len()), pat@, r@)));
            }
            i = i + pat.len();
        } else {
            out.push(s[i]);
            proof {
                assert(rest[0] == s@[i as int]);
                assert(rest.drop_first() =~= s@.skip(i + 1));
                assert(out@ =~= before + seq![s@[i as int]]);
                assert(before + seq![s@[i as int]] + replace_pat(s@.skip(i + 1), pat@, r@) =~= before
                    + (seq![s@[i as int]] + replace_pat(s@.skip(i + 1), pat@, r@)));
            }
            i = i + 1;
        }
    }
    proof {
        assert(s@.skip(i as int) =~= Seq::<char>::empty());
        assert(out@ + Seq::<char>::empty() =~= out@);
    }
    out
}

fn is_unspoken(c: char) -> (b: bool)
    ensures
        b == unspoken_marks().contains(c),
{
    let marks = ['\u{1F916}', '\u{1F680}', '\u{2B50}', '\u{1F31F}', '\u{1F36D}', '\u{1F4CD}', '#'];
    let mut i: usize = 0;
    proof {
        assert(marks@ =~= unspoken_marks());
    }
    while i < 7
        invariant
            0 <= i <= 7,
            marks@ == unspoken_marks(),
            forall|j: int| 0 <= j < i ==> marks@[j] != c,
        decreases 7 - i,
    {
        if marks[i] == c {
            proof {
                assert(marks@[i as int] == c);
            }
            return true;
        }
        i = i + 1;
    }
    false
}

/// Clean text for speech: convert math symbols, strip emoji and markdown.
fn clean_for_speech(text: &str) -> (out: String)
    ensures
        out@ == clean_spec(text@),
{
    let t = chars_of(text);
    let a = replace_char_vec(&t, '\u{00d7}', &chars_of("times"));
    let b = replace_char_vec(&a, '\u{00f7}', &chars_of("divided by"));
    let c = replace_char_vec(&b, '+', &chars_of(" plus "));
    let d = replace_pat_vec(&c, &chars_of(" - "), &chars_of(" minus "));
    let e = replace_char_vec(&d, '\u{2212}', &chars_of("minus"));
    let mut out = String::new();
    let mut i: usize = 0;
    let ghost keep = |ch: char| !unspoken_marks().contains(ch);
    while i < e.len()
        invariant
            0 <= i <= e@.len(),
            out@ == e@.subrange(0, i as int).filter(keep),
            keep == (|ch: char| !unspoken_marks().contains(ch)),
        decreases e@.len() - i,
    {
        let ch = e[i];
        proof {
            let pre = e@.subrange(0, i + 1);
            assert(pre.drop_last() =~= e@.subrange(0, i as int));
            reveal(Seq::filter);
        }
        if !is_unspoken(ch) {
            push_char(&mut out, ch);
        }
        i = i + 1;
    }
    proof {
        assert(e@.subrange(0, e@.len() as int) =~= e@);
    }
    out
}

/// What a speech engine is asked to say: the cleaned text and the voice.
pub struct Utterance {
    pub text: String,
    pub pitch: u32,
    pub rate: u32,
}

/// Prepare a line of dialogue for speech. `None` when nothing would be said
/// once the line is cleaned (empty or all whitespace).
pub fn speak(speaker: &str, text: &str) -> (u: Option<Utterance>)
    ensures
        all_blank(clean_spec(text@)) ==> u is None,
        !all_blank(clean_spec(text@)) ==> (u matches Some(x) && x.text@ == clean_spec(text@) && (
        x.pitch, x.rate) == voice_spec(speaker@)),
{
    let clean = clean_for_speech(text);
    if is_blank(clean.as_str()) {
        return None;
    }
    let voice = voice_for_speaker(speaker);
    Some(Utterance { text: clean, pitch: voice.pitch, rate: voice.rate })
}

/// `pat` occurs in `s` at some position.
pub open spec fn occurs(s: Seq<char>, pat: Seq<char>) -> bool {
    exists|i: int| 0 <= i && i + pat.len() <= s.len() && #[trigger] s.subrange(i, i + pat.len()) == pat
}

proof fn lemma_replace_char_absent(s: Seq<char>, c: char, r: Seq<char>)
    requires
        !s.contains(c),
    ensures
        replace_char(s, c, r) == s,
    decreases s.len(),
{
    if s.len() > 0 {
        assert(s[0] != c);
        assert forall|i: int| 0 <= i < s.drop_first().len() implies s.drop_first()[i] != c by {
            assert(s.drop_first()[i] == s[i + 1]);
        }
        lemma_replace_char_absent(s.drop_first(), c, r);
        assert(seq![s[0]] + s.drop_first() =~= s);
    }
}

proof fn lemma_replace_pat_absent(s: Seq<char>, pat: Seq<char>, r: Seq<char>)
    requires
        pat.len() > 0,
        !occurs(s, pat),
    ensures
        replace_pat(s, pat, r) == s,
    decreases s.len(),
{
    if s.len() > 0 {
        if s.len() >= pat.len() {
            assert(s.subrange(0, 0 + pat.len() as int) != pat);
        }
        let t = s.drop_first();
        assert forall|i: int| 0 <= i && i + pat.len() <= t.len() implies #[trigger] t.subrange(i, i + pat.len())
            != pat by {
            assert(t.subrange(i, i + pat.len()) =~= s.subrange(i + 1, i + 1 + pat.len()));
        }
        lemma_replace_pat_absent(t, pat, r);
        assert(seq![s[0]] + t =~= s);
    }
}

proof fn lemma_filter_keeps_all(s: Seq<char>, keep: spec_fn(char) -> bool)
    requires
        forall|i: int| 0 <= i < s.len() ==> keep(#[trigger] s[i]),
    ensures
        s.filter(keep) == s,
    decreases s.len(),
{
    reveal(Seq::filter);
    if s.len() > 0 {
        let t = s.drop_last();
        assert forall|i: int| 0 <= i < t.len() implies keep(#[trigger] t[i]) by {
            assert(t[i] == s[i]);
        }
        lemma_filter_keeps_all(t, keep);
        assert(keep(s[s.len() - 1]));
        assert(t.push(s.last()) =~= s);
    }
}

/// Cleaning leaves a line alone when there is nothing to spell out or drop:
/// no ×, ÷, + or − sign, no hyphen with a space on each side, and no mark
/// that is not read out. In particular a hyphen inside a word, as in
/// "Eee-eee", is kept as it is.
pub proof fn lemma_clean_keeps_plain_text(text: Seq<char>)
    requires
        !text.contains('\u{00d7}'),
        !text.contains('\u{00f7}'),
        !text.contains('+'),
        !text.contains('\u{2212}'),
        !occurs(text, " - "@),
        forall|i: int| 0 <= i < text.len() ==> !unspoken_marks().contains(#[trigger] text[i]),
    ensures
        clean_spec(text) == text,
{
    reveal_strlit(" - ");
    lemma_replace_char_absent(text, '\u{00d7}', "times"@);
    lemma_replace_char_absent(text, '\u{00f7}', "divided by"@);
    lemma_replace_char_absent(text, '+', " plus "@);
    lemma_replace_pat_absent(text, " - "@, " minus "@);
    lemma_replace_char_absent(text, '\u{2212}', "minus"@);
    lemma_filter_keeps_all(text, |ch: char| !unspoken_marks().contains(ch));
}

proof fn lemma_concat_lacks(a: Seq<char>, b: Seq<char>, x: char)
    requires
        !a.contains(x),
        !b.contains(x),
    ensures
        !(a + b).contains(x),
{
    assert forall|i: int| 0 <= i < (a + b).len() implies (a + b)[i] != x by {
        if i < a.len() {
            assert((a + b)[i] == a[i]);
        } else {
            assert((a + b)[i] == b[i - a.len()]);
        }
    }
}

proof fn lemma_replace_char_lacks(s: Seq<char>, c: char, r: Seq<char>, x: char)
    requires
        x == c || !s.contains(x),
        !r.contains(x),
    ensures
        !replace_char(s, c, r).contains(x),
    decreases s.len(),
{
    if s.len() > 0 {
        let t = s.drop_first();
        if x != c {
            assert forall|i: int| 0 <= i < t.len() implies t[i] != x by {
                assert(t[i] == s[i + 1]);
            }
            assert(s[0] != x);
        }
        lemma_replace_char_lacks(t, c, r, x);
        let head = if s[0] == c { r } else { seq![s[0]] };
        assert(!head.contains(x)) by {
            if s[0] != c {
                assert(head[0] == s[0]);
            }
        }
        lemma_concat_lacks(head, replace_char(t, c, r), x);
    }
}

proof fn lemma_replace_pat_lacks(s: Seq<char>, pat: Seq<char>, r: Seq<char>, x: char)
    requires
        !s.contains(x),
        !r.contains(x),
    ensures
        !replace_pat(s, pat, r).contains(x),
    decreases s.len(),
{
    if s.len() > 0 {
        if pat.len() > 0 && s.len() >= pat.len() && s.subrange(0, pat.len() as int) == pat {
            let t = s.skip(pat.len() as int);
            assert forall|i: int| 0 <= i < t.len() implies t[i] != x by {
                assert(t[i] == s[i + pat.len()]);
            }
            lemma_replace_pat_lacks(t, pat, r, x);
            lemma_concat_lacks(r, replace_pat(t, pat, r), x);
        } else {
            let t = s.drop_first();
            assert forall|i: int| 0 <= i < t.len() implies t[i] != x by {
                assert(t[i] == s[i + 1]);
            }
            lemma_replace_pat_lacks(t, pat, r, x);
            assert(seq![s[0]][0] == s[0]);
            lemma_concat_lacks(seq![s[0]], replace_pat(t, pat, r), x);
        }
    }
}

/// Whatever the line, the cleaned text spells every math sign out and
/// drops every unspoken mark: no ×, ÷, + or − sign and none of the marks
/// is left in it.
pub proof fn lemma_clean_spells_out_signs(text: Seq<char>)
    ensures
        !clean_spec(text).contains('\u{00d7}'),
        !clean_spec(text).contains('\u{00f7}'),
        !clean_spec(text).contains('+'),
        !clean_spec(text).contains('\u{2212}'),
        forall|i: int| 0 <= i < clean_spec(text).len() ==> !unspoken_marks().contains(#[trigger] clean_spec(text)[i]),
{
    reveal_strlit("times");
    reveal_strlit("divided by");
    reveal_strlit(" plus ");
    reveal_strlit(" minus ");
    reveal_strlit("minus");
    let a = replace_char(text, '\u{00d7}', "times"@);
    let b = replace_char(a, '\u{00f7}', "divided by"@);
    let c = replace_char(b, '+', " plus "@);
    let d = replace_pat(c, " - "@, " minus "@);
    let e = replace_char(d, '\u{2212}', "minus"@);
    let keep = |ch: char| !unspoken_marks().contains(ch);
    lemma_replace_char_lacks(text, '\u{00d7}', "times"@, '\u{00d7}');
    lemma_replace_char_lacks(a, '\u{00f7}', "divided by"@, '\u{00f7}');
    lemma_replace_char_lacks(a, '\u{00f7}', "divided by"@, '\u{00d7}');
    lemma_replace_char_lacks(b, '+', " plus "@, '+');
    lemma_replace_char_lacks(b, '+', " plus "@, '\u{00f7}');
    lemma_replace_char_lacks(b, '+', " plus "@, '\u{00d7}');
    lemma_replace_pat_lacks(c, " - "@, " minus "@, '+');
    lemma_replace_pat_lacks(c, " - "@, " minus "@, '\u{00f7}');
    lemma_replace_pat_lacks(c, " - "@, " minus "@, '\u{00d7}');
    lemma_replace_char_lacks(d, '\u{2212}', "minus"@, '\u{2212}');
    lemma_replace_char_lacks(d, '\u{2212}', "minus"@, '+');
    lemma_replace_char_lacks(d, '\u{2212}', "minus"@, '\u{00f7}');
    lemma_replace_char_lacks(d, '\u{2212}', "minus"@, '\u{00d7}');
    assert(clean_spec(text) == e.filter(keep));
    assert forall|x: char| !e.contains(x) implies !e.filter(keep).contains(x) by {
        if e.filter(keep).contains(x) {
            e.lemma_filter_contains_rev(keep, x);
        }
    }
    assert forall|i: int| 0 <= i < e.filter(keep).len() implies keep(#[trigger] e.filter(keep)[i]) by {
        e.lemma_filter_pred(keep, i);
    }
}

} // verus!
