//! The request logic of the local macro API: reading invocation bodies,
//! describing macros, choosing status codes and messages.
use vstd::prelude::*;
use crate::json::{extract_text_from_json, json_text, opt_view, preferred_key, preferred_key_string, JsonValue};
use crate::text::{
    chars_eq_ignore_ascii_case, chars_less, chars_of, occurs_at, contains_chars, contains_seq, eq_ignore_ascii_case, find_char,
    lemma_seq_less_total, lemma_seq_less_transitive, matches_at, replace_chars, replace_seq, rfind_char,
    seq_less, slice_chars, string_of, trim, trim_by, trim_chars, TrimClass,
};
use crate::trusted::{decode_json_string, form_pairs, json_document, json_string_literal, parse_form_pairs, parse_json_value, utf8_lossy, utf8_lossy_string};
use crate::modules::macro_engine::{clone_profile, MacroConfig, MacroDataKind, MacroHttpMethod, MacroProfile};
use crate::text::{append_chars, append_str, string_from};
use crate::macro_runtime::{begin_next, MacroRuntime};
use crate::orchestrator::{execute_next, stop_next, AppState, Orchestrator};
use crate::modules::io_controller::{EventType, Key};
use crate::trusted::{
    base64_decode, base64_decoded, base64_encode, base64_encoded, base64_error_text,
    encode_png, is_base64_char, png_encoded, png_error_text,
    PngOutcome, RgbaPixels,
};

verus! {

// ---------------------------------------------------------------------------
// Raw body clean-up
// ---------------------------------------------------------------------------

/// `s` without the prefix `p`, if it starts with `p` (`str::strip_prefix`,
/// keeping `s` when it does not).
pub open spec fn strip_prefix_seq(s: Seq<char>, p: Seq<char>) -> Seq<char> {
    if p.len() <= s.len() && s.take(p.len() as int) == p {
        s.skip(p.len() as int)
    } else {
        s
    }
}

/// The byte-order mark U+FEFF, and the two forms in which proxies forward
/// its UTF-8 bytes as text (read as Latin-1 and as code page 437).
pub open spec fn bom_marks() -> (Seq<char>, Seq<char>, Seq<char>) {
    ("\u{feff}"@, "\u{ef}\u{bb}\u{bf}"@, "\u{2229}\u{2557}\u{2510}"@)
}

/// A raw request body as text: lossily decoded, each byte-order mark form
/// stripped once in turn, then trimmed.
pub open spec fn sanitized(raw: Seq<u8>) -> Seq<char> {
    let (m0, m1, m2) = bom_marks();
    trim(strip_prefix_seq(strip_prefix_seq(strip_prefix_seq(utf8_lossy(raw), m0), m1), m2))
}

fn strip_prefix_chars(s: Vec<char>, p: &str) -> (r: Vec<char>)
    ensures
        r@ == strip_prefix_seq(s@, p@),
{
    let pc = chars_of(p);
    if matches_at(&s, &pc, 0) {
        assert(s@.subrange(0, pc@.len() as int) == s@.take(pc@.len() as int));
        slice_chars(&s, pc.len(), s.len())
    } else {
        assert(!(pc@.len() <= s@.len() && s@.take(pc@.len() as int) == pc@)) by {
            if pc@.len() <= s@.len() {
                assert(s@.subrange(0, pc@.len() as int) == s@.take(pc@.len() as int));
            }
        }
        s
    }
}

/// The text of a raw request body, as `sanitized` describes.
pub fn sanitize_raw_body(raw: &[u8]) -> (r: String)
    ensures
        r@ == sanitized(raw@),
{
    let text = utf8_lossy_string(raw);
    let cs = chars_of(text.as_str());
    let cs = strip_prefix_chars(cs, "\u{feff}");
    let cs = strip_prefix_chars(cs, "\u{ef}\u{bb}\u{bf}");
    let cs = strip_prefix_chars(cs, "\u{2229}\u{2557}\u{2510}");
    let t = trim_chars(&cs, TrimClass::WhiteSpace);
    string_of(&t)
}

/// `value` with each CR LF pair turned into LF.
pub fn normalize_line_endings(value: &str) -> (r: String)
    ensures
        r@ == replace_seq(value@, "\r\n"@, "\n"@),
{
    let cs = chars_of(value);
    let from = chars_of("\r\n");
    let to = chars_of("\n");
    proof {
        reveal_strlit("\r\n");
    }
    let out = replace_chars(&cs, &from, &to);
    string_of(&out)
}

// ---------------------------------------------------------------------------
// Candidate texts of a body
// ---------------------------------------------------------------------------

/// `i` is the index of the first `c` in `s`.
pub open spec fn is_first_index(s: Seq<char>, c: char, i: int) -> bool {
    0 <= i < s.len() && s[i] == c && forall|j: int| 0 <= j < i ==> s[j] != c
}

/// `i` is the index of the last `c` in `s`.
pub open spec fn is_last_index(s: Seq<char>, c: char, i: int) -> bool {
    0 <= i < s.len() && s[i] == c && forall|j: int| i < j < s.len() ==> s[j] != c
}

/// From the first `{` to the last `}` of `s`, both kept, when the first
/// comes before the last.
pub open spec fn brace_span(s: Seq<char>) -> Option<Seq<char>> {
    if (exists|a: int| is_first_index(s, '{', a)) && (exists|b: int| is_last_index(s, '}', b)) {
        let a = choose|a: int| is_first_index(s, '{', a);
        let b = choose|b: int| is_last_index(s, '}', b);
        if a < b {
            Some(s.subrange(a, b + 1))
        } else {
            None
        }
    } else {
        None
    }
}

/// The texts to try to read a body from, before sorting: the body; its
/// brace span; its decoding as a JSON string literal; and, when it holds
/// `\"`, the body with each `\"` turned into `"` and that text's decoding
/// as a JSON string literal.
pub open spec fn candidate_list(raw: Seq<char>) -> Seq<Seq<char>> {
    let l0 = seq![raw];
    let l1 = match brace_span(raw) {
        Some(t) => l0.push(t),
        None => l0,
    };
    let l2 = match json_string_literal(raw) {
        Some(d) => l1.push(d),
        None => l1,
    };
    if contains_seq(raw, "\\\""@) {
        let u = replace_seq(raw, "\\\""@, "\""@);
        let l3 = l2.push(u);
        match json_string_literal(u) {
            Some(d) => l3.push(d),
            None => l3,
        }
    } else {
        l2
    }
}

/// The views of a sequence of strings.
pub open spec fn views(v: Seq<String>) -> Seq<Seq<char>> {
    v.map_values(|s: String| s@)
}

/// Each text sorts strictly before the next (so no text occurs twice).
pub open spec fn strictly_sorted(s: Seq<Seq<char>>) -> bool {
    forall|i: int, j: int| 0 <= i < j < s.len() ==> seq_less(#[trigger] s[i], #[trigger] s[j])
}

/// Inserts `item` into the strictly sorted `out`, unless it is there.
fn insert_sorted(out: &mut Vec<String>, item: String)
    requires
        strictly_sorted(views(old(out)@)),
    ensures
        strictly_sorted(views(final(out)@)),
        views(final(out)@).to_set() == views(old(out)@).to_set().insert(item@),
{
    let ghost old_v = views(out@);
    let ic = chars_of(item.as_str());
    let mut p: usize = 0;
    while p < out.len() && chars_less(&chars_of(out[p].as_str()), &ic)
        invariant
            p <= out@.len(),
            old_v == views(out@),
            ic@ == item@,
            forall|i: int| 0 <= i < p ==> seq_less(#[trigger] old_v[i], item@),
        decreases out@.len() - p,
    {
        p = p + 1;
    }
    if p < out.len() && out[p] == item {
        assert(old_v.to_set().insert(item@) =~= old_v.to_set()) by {
            assert(old_v[p as int] == item@);
        }
        return;
    }
    proof {
        if p < out@.len() {
            lemma_seq_less_total(old_v[p as int], item@);
            assert(seq_less(item@, old_v[p as int]));
            assert forall|j: int| p <= j < old_v.len() implies seq_less(item@, #[trigger] old_v[j]) by {
                if j > p {
                    lemma_seq_less_transitive(item@, old_v[p as int], old_v[j]);
                }
            }
        }
    }
    out.insert(p, item);
    proof {
        let nv = views(out@);
        assert(nv =~= old_v.insert(p as int, item@));
        assert forall|i: int, j: int| 0 <= i < j < nv.len() implies seq_less(
            #[trigger] nv[i],
            #[trigger] nv[j],
        ) by {
            if j < p {
            } else if i < p && j == p {
            } else if i < p && j > p {
                lemma_seq_less_transitive(old_v[i], item@, old_v[j - 1]);
            } else if i == p {
            } else {
            }
        }
        assert(nv.to_set() =~= old_v.to_set().insert(item@)) by {
            assert forall|x: Seq<char>| nv.to_set().contains(x) <==> old_v.to_set().insert(
                item@,
            ).contains(x) by {
                if nv.to_set().contains(x) {
                    let k = choose|k: int| 0 <= k < nv.len() && nv[k] == x;
                    if k < p {
                        assert(old_v[k] == x);
                    } else if k > p {
                        assert(old_v[k - 1] == x);
                    }
                }
                if old_v.to_set().contains(x) {
                    let k = choose|k: int| 0 <= k < old_v.len() && old_v[k] == x;
                    if k < p {
                        assert(nv[k] == x);
                    } else {
                        assert(nv[k + 1] == x);
                    }
                }
                if x == item@ {
                    assert(nv[p as int] == x);
                }
            }
        }
    }
}

/// The texts of `candidate_list(raw)`, sorted, each once: the one strictly
/// sorted sequence that holds them.
pub open spec fn sorted_candidates(raw: Seq<char>) -> Seq<Seq<char>> {
    choose|s: Seq<Seq<char>>| strictly_sorted(s) && s.to_set() == candidate_list(raw).to_set()
}

proof fn lemma_sorted_tail(a: Seq<Seq<char>>)
    requires
        strictly_sorted(a),
        a.len() > 0,
    ensures
        strictly_sorted(a.drop_first()),
        forall|x: Seq<char>| a.drop_first().to_set().contains(x) <==> (a.to_set().contains(x) && x
            != a[0]),
{
    let t = a.drop_first();
    assert forall|i: int, j: int| 0 <= i < j < t.len() implies seq_less(
        #[trigger] t[i],
        #[trigger] t[j],
    ) by {
        assert(t[i] == a[i + 1] && t[j] == a[j + 1]);
    }
    assert forall|x: Seq<char>| t.to_set().contains(x) <==> (a.to_set().contains(x) && x != a[0]) by {
        if t.to_set().contains(x) {
            let k = choose|k: int| 0 <= k < t.len() && t[k] == x;
            assert(a[k + 1] == x);
            assert(seq_less(a[0], a[k + 1]));
            lemma_seq_less_total(a[0], a[0]);
        }
        if a.to_set().contains(x) && x != a[0] {
            let k = choose|k: int| 0 <= k < a.len() && a[k] == x;
            assert(k > 0);
            assert(t[k - 1] == x);
        }
    }
}

/// Two strictly sorted sequences that hold the same texts are equal.
proof fn lemma_sorted_unique(a: Seq<Seq<char>>, b: Seq<Seq<char>>)
    requires
        strictly_sorted(a),
        strictly_sorted(b),
        a.to_set() == b.to_set(),
    ensures
        a == b,
    decreases a.len(),
{
    if a.len() == 0 {
        if b.len() > 0 {
            assert(b.to_set().contains(b[0]));
        }
        assert(a =~= b);
    } else {
        assert(a.to_set().contains(a[0]));
        assert(b.to_set().contains(a[0]));
        let j = choose|j: int| 0 <= j < b.len() && b[j] == a[0];
        assert(b.to_set().contains(b[0]));
        assert(a.to_set().contains(b[0]));
        let i = choose|i: int| 0 <= i < a.len() && a[i] == b[0];
        lemma_seq_less_total(a[0], a[0]);
        if j > 0 {
            assert(seq_less(b[0], b[j]));
            if i > 0 {
                assert(seq_less(a[0], a[i]));
                lemma_seq_less_transitive(a[0], a[i], a[0]);
            }
        }
        assert(a[0] == b[0]);
        lemma_sorted_tail(a);
        lemma_sorted_tail(b);
        assert(a.drop_first().to_set() =~= b.drop_first().to_set()) by {
            assert forall|x: Seq<char>| a.drop_first().to_set().contains(x) <==> b.drop_first().to_set().contains(x) by {
                assert(a.to_set().contains(x) <==> b.to_set().contains(x));
                assert(a.drop_first().to_set().contains(x) <==> (a.to_set().contains(x) && x != a[0]));
                assert(b.drop_first().to_set().contains(x) <==> (b.to_set().contains(x) && x != b[0]));
            }
        }
        lemma_sorted_unique(a.drop_first(), b.drop_first());
        assert(a =~= seq![a[0]] + a.drop_first());
        assert(b =~= seq![b[0]] + b.drop_first());
    }
}

/// The texts to try to read the body `raw` from: those of `candidate_list`,
/// sorted, each once (`Vec::sort` then `Vec::dedup`).
pub fn body_parse_candidates(raw: &str) -> (r: Vec<String>)
    ensures
        strictly_sorted(views(r@)),
        views(r@).to_set() == candidate_list(raw@).to_set(),
        views(r@) == sorted_candidates(raw@),
{
    let rc = chars_of(raw);
    let mut list: Vec<String> = Vec::new();
    list.push(string_of(&rc));
    let open_at = find_char(&rc, '{');
    let close_at = rfind_char(&rc, '}');
    match (open_at, close_at) {
        (Some(a), Some(b)) => {
            assert(is_first_index(raw@, '{', a as int));
            assert(is_last_index(raw@, '}', b as int));
            proof {
                let a2 = choose|x: int| is_first_index(raw@, '{', x);
                let b2 = choose|x: int| is_last_index(raw@, '}', x);
                assert(a2 == a) by {
                    if a2 < a {
                    } else if a2 > a {
                    }
                }
                assert(b2 == b) by {
                    if b2 < b {
                    } else if b2 > b {
                    }
                }
            }
            if a < b {
                assert(b < rc.len());
                list.push(string_of(&slice_chars(&rc, a, b + 1)));
            }
        },
        _ => {
            assert(brace_span(raw@) is None) by {
                if open_at is None {
                    assert(!exists|x: int| is_first_index(raw@, '{', x));
                } else {
                    assert(!exists|x: int| is_last_index(raw@, '}', x));
                }
            }
        },
    }
    match decode_json_string(raw) {
        Some(d) => list.push(d),
        None => {},
    }
    let esc = chars_of("\\\"");
    if contains_chars(&rc, &esc) {
        let quote = chars_of("\"");
        proof {
            reveal_strlit("\\\"");
        }
        let u = string_of(&replace_chars(&rc, &esc, &quote));
        let decoded = decode_json_string(u.as_str());
        list.push(u);
        match decoded {
            Some(d) => list.push(d),
            None => {},
        }
    }
    assert(views(list@) =~= candidate_list(raw@));
    let mut out: Vec<String> = Vec::new();
    let mut i: usize = 0;
    while i < list.len()
        invariant
            i <= list@.len(),
            strictly_sorted(views(out@)),
            views(out@).to_set() == views(list@).take(i as int).to_set(),
        decreases list@.len() - i,
    {
        let item = list[i].clone();
        insert_sorted(&mut out, item);
        proof {
            let t = views(list@);
            assert(t.take(i + 1) =~= t.take(i as int).push(t[i as int]));
            t.take(i as int).lemma_push_to_set_commute(t[i as int]);
        }
        i = i + 1;
    }
    assert(views(list@).take(list@.len() as int) =~= views(list@));
    proof {
        let w = views(out@);
        assert(strictly_sorted(w) && w.to_set() == candidate_list(raw@).to_set());
        let c = sorted_candidates(raw@);
        lemma_sorted_unique(w, c);
    }
    out
}


// ---------------------------------------------------------------------------
// Form-encoded bodies
// ---------------------------------------------------------------------------

/// Whether `name` is one of the preferred member names, up to ASCII case.
pub open spec fn is_preferred_name(name: Seq<char>) -> bool {
    exists|k: int| 0 <= k < 9 && eq_ignore_ascii_case(name, #[trigger] preferred_key(k))
}

/// The trimmed value of the first pair, from index `i` on, whose name is
/// preferred and whose trimmed value is not empty.
pub open spec fn form_text(pairs: Seq<(Seq<char>, Seq<char>)>, i: int) -> Option<Seq<char>>
    decreases pairs.len() - i,
{
    if i < 0 || i >= pairs.len() {
        None
    } else if is_preferred_name(pairs[i].0) && trim(pairs[i].1).len() > 0 {
        Some(trim(pairs[i].1))
    } else {
        form_text(pairs, i + 1)
    }
}

fn name_is_preferred(name: &String) -> (r: bool)
    ensures
        r == is_preferred_name(name@),
{
    let nc = chars_of(name.as_str());
    let mut k: usize = 0;
    while k < 9
        invariant
            k <= 9,
            nc@ == name@,
            forall|j: int| 0 <= j < k ==> !eq_ignore_ascii_case(name@, #[trigger] preferred_key(j)),
        decreases 9 - k,
    {
        let key = preferred_key_string(k);
        if chars_eq_ignore_ascii_case(&nc, &chars_of(key.as_str())) {
            return true;
        }
        k = k + 1;
    }
    false
}

/// The text of an `application/x-www-form-urlencoded` body: the trimmed
/// value of the first pair whose name is a preferred member name (any ASCII
/// case) and whose trimmed value is not empty.
pub fn parse_form_encoded_text(input: &str) -> (r: Option<String>)
    ensures
        opt_view(r) == form_text(form_pairs(input@), 0),
{
    let pairs = parse_form_pairs(input);
    let ghost fp = form_pairs(input@);
    let mut i: usize = 0;
    while i < pairs.len()
        invariant
            i <= pairs@.len(),
            pairs@.len() == fp.len(),
            fp == form_pairs(input@),
            forall|j: int| 0 <= j < pairs@.len() ==> (#[trigger] pairs@[j]).0@ == fp[j].0 && pairs@[j].1@ == fp[j].1,
            form_text(fp, 0) == form_text(fp, i as int),
        decreases pairs@.len() - i,
    {
        assert(pairs@[i as int].0@ == fp[i as int].0 && pairs@[i as int].1@ == fp[i as int].1);
        if name_is_preferred(&pairs[i].0) {
            let vc = chars_of(pairs[i].1.as_str());
            let t = trim_chars(&vc, TrimClass::WhiteSpace);
            if t.len() > 0 {
                return Some(string_of(&t));
            }
        }
        i = i + 1;
    }
    None
}

// ---------------------------------------------------------------------------
// Invocation bodies
// ---------------------------------------------------------------------------

/// What a macro invocation hands over: text, an image as base64, or the
/// path of a file holding an image.
#[derive(Debug)]
pub struct InvokeBody {
    pub text: Option<String>,
    pub image_base64: Option<String>,
    pub attachment_path: Option<String>,
}

/// What the JSON parser made of one candidate text: its reading as an
/// invocation body (whose member names accept the aliases `input`,
/// `payload`, `prompt` for `text`; `imageBase64`, `image_data` for
/// `image_base64`; `attachment`, `filePath`, `path` for `attachment_path`),
/// and its reading as a generic JSON value.
#[derive(Debug)]
pub struct CandidateParse {
    pub body: Option<InvokeBody>,
    pub value: Option<JsonValue>,
}

/// Whether an invocation body carries anything.
pub open spec fn has_any_field(b: InvokeBody) -> bool {
    b.text is Some || b.image_base64 is Some || b.attachment_path is Some
}

/// The first body reading, from index `i` on, that carries anything.
pub open spec fn body_choice(p: Seq<CandidateParse>, i: int) -> Option<InvokeBody>
    decreases p.len() - i,
{
    if i < 0 || i >= p.len() {
        None
    } else {
        match p[i].body {
            Some(b) => if has_any_field(b) {
                Some(b)
            } else {
                body_choice(p, i + 1)
            },
            None => body_choice(p, i + 1),
        }
    }
}

/// The first text found, from index `i` on, in the generic JSON readings.
pub open spec fn value_choice(p: Seq<CandidateParse>, i: int) -> Option<Seq<char>>
    decreases p.len() - i,
{
    if i < 0 || i >= p.len() {
        None
    } else {
        match p[i].value {
            Some(v) => match json_text(v) {
                Some(t) => Some(t),
                None => value_choice(p, i + 1),
            },
            None => value_choice(p, i + 1),
        }
    }
}

/// The text of a body that no parser read as an invocation body: found in a
/// JSON value, else in a form encoding, else the trimmed body without
/// surrounding double quotes, if anything is left.
pub open spec fn fallback_text(raw: Seq<char>, p: Seq<CandidateParse>) -> Option<Seq<char>> {
    match value_choice(p, 0) {
        Some(t) => Some(t),
        None => match form_text(form_pairs(raw), 0) {
            Some(t) => Some(t),
            None => {
                let q = trim_by(trim(raw), TrimClass::Quote);
                if q.len() > 0 {
                    Some(q)
                } else {
                    None
                }
            },
        },
    }
}

fn clone_opt_string(o: &Option<String>) -> (r: Option<String>)
    ensures
        r == *o,
{
    match o {
        Some(s) => Some(s.clone()),
        None => None,
    }
}

/// A copy of an invocation body.
pub fn clone_invoke_body(b: &InvokeBody) -> (r: InvokeBody)
    ensures
        r == *b,
{
    InvokeBody {
        text: clone_opt_string(&b.text),
        image_base64: clone_opt_string(&b.image_base64),
        attachment_path: clone_opt_string(&b.attachment_path),
    }
}

/// The invocation body of the cleaned body text `raw`, given what the JSON
/// parser made of each candidate text in order: the first reading that
/// carries anything; otherwise a text-only body with `fallback_text`.
pub fn select_invoke_body(raw: &str, parses: &Vec<CandidateParse>) -> (r: InvokeBody)
    ensures
        match body_choice(parses@, 0) {
            Some(b) => r == b,
            None => r.image_base64 is None && r.attachment_path is None && opt_view(r.text)
                == fallback_text(raw@, parses@),
        },
{
    let mut i: usize = 0;
    while i < parses.len()
        invariant
            i <= parses@.len(),
            body_choice(parses@, 0) == body_choice(parses@, i as int),
        decreases parses@.len() - i,
    {
        match &parses[i].body {
            Some(b) => {
                if b.text.is_some() || b.image_base64.is_some() || b.attachment_path.is_some() {
                    return clone_invoke_body(b);
                }
            },
            None => {},
        }
        i = i + 1;
    }
    let mut i: usize = 0;
    while i < parses.len()
        invariant
            i <= parses@.len(),
            body_choice(parses@, 0) is None,
            value_choice(parses@, 0) == value_choice(parses@, i as int),
        decreases parses@.len() - i,
    {
        match &parses[i].value {
            Some(v) => {
                let found = extract_text_from_json(v);
                if found.is_some() {
                    return InvokeBody { text: found, image_base64: None, attachment_path: None };
                }
            },
            None => {},
        }
        i = i + 1;
    }
    let form = parse_form_encoded_text(raw);
    if form.is_some() {
        return InvokeBody { text: form, image_base64: None, attachment_path: None };
    }
    let rc = chars_of(raw);
    let t = trim_chars(&rc, TrimClass::WhiteSpace);
    let q = trim_chars(&t, TrimClass::Quote);
    if q.len() > 0 {
        InvokeBody { text: Some(string_of(&q)), image_base64: None, attachment_path: None }
    } else {
        InvokeBody { text: None, image_base64: None, attachment_path: None }
    }
}

/// What is read from each candidate text in `cands`: body reading number
/// `i` from `readings` (none past its end) and the JSON document the
/// generic parser reads from the text.
pub open spec fn candidate_parses(cands: Seq<Seq<char>>, readings: Seq<Option<InvokeBody>>) -> Seq<
    CandidateParse,
> {
    Seq::new(
        cands.len(),
        |i: int|
            CandidateParse {
                body: if i < readings.len() {
                    readings[i]
                } else {
                    None
                },
                value: json_document(cands[i]),
            },
    )
}

/// Whether `r` is the invocation body read from the raw request bytes
/// `raw`, given the readings of the sorted candidate texts of its cleaned
/// text as invocation bodies: nothing from an empty body; otherwise the
/// first reading that carries a field; otherwise a text-only body holding
/// the first text found in a candidate's JSON document, else in the form
/// encoding, else the trimmed text without surrounding double quotes.
pub open spec fn body_read_as(raw: Seq<u8>, readings: Seq<Option<InvokeBody>>, r: InvokeBody) -> bool {
    if raw.len() == 0 {
        !has_any_field(r)
    } else {
        let t = sanitized(raw);
        let p = candidate_parses(sorted_candidates(t), readings);
        match body_choice(p, 0) {
            Some(b) => r == b,
            None => r.image_base64 is None && r.attachment_path is None && opt_view(r.text)
                == fallback_text(t, p),
        }
    }
}

fn clone_reading(o: &Option<InvokeBody>) -> (r: Option<InvokeBody>)
    ensures
        r == *o,
{
    match o {
        Some(b) => Some(clone_invoke_body(b)),
        None => None,
    }
}

/// Reads a macro invocation from the raw request bytes. `body_readings[i]`
/// is what the JSON parser made of the `i`-th text of
/// `body_parse_candidates(&sanitize_raw_body(raw))` as an invocation body;
/// each text's generic JSON reading is made here.
pub fn parse_invoke_body(raw: &[u8], body_readings: &Vec<Option<InvokeBody>>) -> (r: InvokeBody)
    ensures
        body_read_as(raw@, body_readings@, r),
{
    if raw.len() == 0 {
        return InvokeBody { text: None, image_base64: None, attachment_path: None };
    }
    let text = sanitize_raw_body(raw);
    let cands = body_parse_candidates(text.as_str());
    let ghost sc = sorted_candidates(text@);
    let mut parses: Vec<CandidateParse> = Vec::new();
    let mut i: usize = 0;
    while i < cands.len()
        invariant
            i <= cands@.len(),
            views(cands@) == sc,
            parses@ == candidate_parses(sc, body_readings@).take(i as int),
        decreases cands@.len() - i,
    {
        let body = if i < body_readings.len() {
            clone_reading(&body_readings[i])
        } else {
            None
        };
        let value = parse_json_value(cands[i].as_str());
        proof {
            assert(cands@[i as int]@ == sc[i as int]);
        }
        parses.push(CandidateParse { body, value });
        assert(parses@ =~= candidate_parses(sc, body_readings@).take(i + 1));
        i = i + 1;
    }
    assert(parses@ =~= candidate_parses(sc, body_readings@));
    select_invoke_body(text.as_str(), &parses)
}


// ---------------------------------------------------------------------------
// Replies
// ---------------------------------------------------------------------------

/// A reply that only says whether the request succeeded, and why.
#[derive(Debug)]
pub struct ApiMessage {
    pub success: bool,
    pub message: String,
}

/// A successful reply with `message`.
pub fn ok_message(message: String) -> (r: ApiMessage)
    ensures
        r.success && r.message == message,
{
    ApiMessage { success: true, message }
}

/// `prefix`, `name` and `suffix`, one after the other.
pub fn framed(prefix: &str, name: &str, suffix: &str) -> (r: String)
    ensures
        r@ == prefix@ + name@ + suffix@,
{
    let mut out: Vec<char> = Vec::new();
    append_str(&mut out, prefix);
    append_str(&mut out, name);
    append_str(&mut out, suffix);
    string_from_chars(&out)
}

/// `prefix` followed by `s`.
pub fn prefixed(prefix: &str, s: &String) -> (r: String)
    ensures
        r@ == prefix@ + s@,
{
    let mut out: Vec<char> = Vec::new();
    append_str(&mut out, prefix);
    append_chars(&mut out, &chars_of(s.as_str()));
    string_of(&out)
}

fn string_from_chars(cs: &Vec<char>) -> (r: String)
    ensures
        r@ == cs@,
{
    string_of(cs)
}

/// The HTTP status for an error text: 409 for a refused state change or a
/// busy agent (`Invalid state transition`, `not idle`, `already`), 404 for
/// a macro file that cannot be read, 500 otherwise.
pub open spec fn status_for_message(m: Seq<char>) -> u16 {
    if contains_seq(m, "Invalid state transition"@) || contains_seq(m, "not idle"@) || contains_seq(
        m,
        "already"@,
    ) {
        409
    } else if contains_seq(m, "Failed to read macro file"@) {
        404
    } else {
        500
    }
}

/// The status and reply for a failed request with the error text `message`.
pub fn map_error_status(message: String) -> (r: (u16, ApiMessage))
    ensures
        r.0 == status_for_message(message@),
        !r.1.success,
        r.1.message == message,
{
    let mc = chars_of(message.as_str());
    let status: u16 = if contains_chars(&mc, &chars_of("Invalid state transition")) || contains_chars(
        &mc,
        &chars_of("not idle"),
    ) || contains_chars(&mc, &chars_of("already")) {
        409
    } else if contains_chars(&mc, &chars_of("Failed to read macro file")) {
        404
    } else {
        500
    };
    (status, ApiMessage { success: false, message })
}

/// The reply to a stop request: who was asked to stop, or that nothing plays.
pub open spec fn stop_signal_text(stopped: Option<Seq<char>>) -> Seq<char> {
    match stopped {
        Some(n) => "Stop signal sent to macro '"@ + n + "'."@,
        None => "No macro is currently running."@,
    }
}

/// The text replying to a stop request.
pub fn stop_signal_message(stopped: &Option<String>) -> (r: String)
    ensures
        r@ == stop_signal_text(opt_view(*stopped)),
{
    match stopped {
        Some(n) => framed("Stop signal sent to macro '", n.as_str(), "'."),
        None => string_from("No macro is currently running."),
    }
}

/// The status and reply to a request to stop one named macro: 200 when it
/// was asked to stop or nothing plays, 409 with the refusal when another
/// macro plays.
pub fn stop_named_response(result: Result<Option<String>, String>) -> (r: (u16, ApiMessage))
    ensures
        match result {
            Ok(stopped) => r.0 == 200 && r.1.success && r.1.message@ == stop_signal_text(
                opt_view(stopped),
            ),
            Err(m) => r.0 == 409 && !r.1.success && r.1.message == m,
        },
{
    match result {
        Ok(stopped) => (200, ApiMessage { success: true, message: stop_signal_message(&stopped) }),
        Err(message) => (409, ApiMessage { success: false, message }),
    }
}

// ---------------------------------------------------------------------------
// Describing macros
// ---------------------------------------------------------------------------

/// How a macro's input is described.
pub open spec fn accepts_text(k: MacroDataKind) -> Seq<char> {
    match k {
        MacroDataKind::Nothing => "No input body is required."@,
        MacroDataKind::Text => "Accepts text payload and places it on clipboard before playback."@,
        MacroDataKind::Image => "Accepts image payload (future extension), then places it on clipboard."@,
    }
}

/// How a macro's output is described.
pub open spec fn returns_text(k: MacroDataKind) -> Seq<char> {
    match k {
        MacroDataKind::Nothing => "No response payload expected from clipboard."@,
        MacroDataKind::Text => "Returns text copied to clipboard after macro completion."@,
        MacroDataKind::Image => "Returns base64-encoded clipboard image after macro completion."@,
    }
}

/// What callers are told about one macro.
#[derive(Debug)]
pub struct MacroAboutResponse {
    pub name: String,
    pub description: String,
    pub use_when: String,
    pub method: MacroHttpMethod,
    pub input_kind: MacroDataKind,
    pub output_kind: MacroDataKind,
    pub accepts: String,
    /// What the macro hands back (the `returns` member of the reply).
    pub returns_info: String,
    pub invoke_endpoint: String,
}

/// The path through which the macro `name` is invoked.
pub open spec fn invoke_path(name: Seq<char>) -> Seq<char> {
    "/macros/"@ + name + "/invoke"@
}

/// The description of the macro `name` with `profile`.
pub fn macro_about_from_profile(name: &str, profile: MacroProfile) -> (r: MacroAboutResponse)
    ensures
        r.name@ == name@,
        r.description == profile.description,
        r.use_when == profile.use_when,
        r.method == profile.method,
        r.input_kind == profile.input_kind,
        r.output_kind == profile.output_kind,
        r.accepts@ == accepts_text(profile.input_kind),
        r.returns_info@ == returns_text(profile.output_kind),
        r.invoke_endpoint@ == invoke_path(name@),
{
    let accepts = match profile.input_kind {
        MacroDataKind::Nothing => string_from("No input body is required."),
        MacroDataKind::Text => string_from(
            "Accepts text payload and places it on clipboard before playback.",
        ),
        MacroDataKind::Image => string_from(
            "Accepts image payload (future extension), then places it on clipboard.",
        ),
    };
    let returns_info = match profile.output_kind {
        MacroDataKind::Nothing => string_from("No response payload expected from clipboard."),
        MacroDataKind::Text => string_from("Returns text copied to clipboard after macro completion."),
        MacroDataKind::Image => string_from(
            "Returns base64-encoded clipboard image after macro completion.",
        ),
    };
    MacroAboutResponse {
        name: string_from(name),
        description: profile.description,
        use_when: profile.use_when,
        method: profile.method,
        input_kind: profile.input_kind,
        output_kind: profile.output_kind,
        accepts,
        returns_info,
        invoke_endpoint: framed("/macros/", name, "/invoke"),
    }
}

/// One route of the API, as the help page lists it.
#[derive(Debug)]
pub struct EndpointHelp {
    pub method: String,
    pub path: String,
    pub description: String,
}

/// The help page: the service, its base address, its routes and its macros.
#[derive(Debug)]
pub struct HelpResponse {
    pub service: String,
    pub base_url: String,
    pub endpoints: Vec<EndpointHelp>,
    pub macros: Vec<MacroAboutResponse>,
}

/// The routes the help page lists, in order: method, path, description.
pub open spec fn endpoint_table() -> Seq<(Seq<char>, Seq<char>, Seq<char>)> {
    seq![
        ("GET"@, "/help"@, "API help portal with routes and macro about docs."@),
        ("GET"@, "/health"@, "API health check."@),
        ("GET"@, "/state"@, "Current app orchestrator state."@),
        ("GET"@, "/macros"@, "List macros with profiles."@),
        ("GET"@, "/macros/:name"@, "Fetch one macro profile."@),
        ("GET"@, "/macros/:name/help"@, "Detailed about info for one macro."@),
        ("GET|POST"@, "/macros/:name/invoke"@, "Invoke macro with method enforced by macro profile."@),
        ("POST"@, "/macros/:name/stop"@, "Stop a specific running macro by name."@),
        ("POST"@, "/macros/stop"@, "Gracefully stop currently running macro."@),
        ("POST"@, "/macros/stop-all"@, "Alias for stop-any-running-macro."@),
        ("POST"@, "/recording/start"@, "Start recording a new macro."@),
        ("POST"@, "/recording/stop"@, "Stop recording and save profile options."@),
        ("DELETE"@, "/macros/:name"@, "Delete macro and profile."@),
        ("POST"@, "/mouse/move"@, "Move mouse to absolute x, y coordinates."@),
        ("POST"@, "/mouse/drag"@, "Drag mouse relatively by delta_x, delta_y."@),
    ]
}

fn endpoint(method: &str, path: &str, description: &str) -> (r: EndpointHelp)
    ensures
        r.method@ == method@,
        r.path@ == path@,
        r.description@ == description@,
{
    EndpointHelp {
        method: string_from(method),
        path: string_from(path),
        description: string_from(description),
    }
}

/// The views of a list of routes.
pub open spec fn endpoint_views(v: Seq<EndpointHelp>) -> Seq<(Seq<char>, Seq<char>, Seq<char>)> {
    v.map_values(|e: EndpointHelp| (e.method@, e.path@, e.description@))
}

/// The routes of the API, as `endpoint_table` lists them.
pub fn help_endpoints() -> (r: Vec<EndpointHelp>)
    ensures
        endpoint_views(r@) == endpoint_table(),
{
    let mut r: Vec<EndpointHelp> = Vec::new();
    r.push(endpoint("GET", "/help", "API help portal with routes and macro about docs."));
    r.push(endpoint("GET", "/health", "API health check."));
    r.push(endpoint("GET", "/state", "Current app orchestrator state."));
    r.push(endpoint("GET", "/macros", "List macros with profiles."));
    r.push(endpoint("GET", "/macros/:name", "Fetch one macro profile."));
    r.push(endpoint("GET", "/macros/:name/help", "Detailed about info for one macro."));
    r.push(
        endpoint(
            "GET|POST",
            "/macros/:name/invoke",
            "Invoke macro with method enforced by macro profile.",
        ),
    );
    r.push(endpoint("POST", "/macros/:name/stop", "Stop a specific running macro by name."));
    r.push(endpoint("POST", "/macros/stop", "Gracefully stop currently running macro."));
    r.push(endpoint("POST", "/macros/stop-all", "Alias for stop-any-running-macro."));
    r.push(endpoint("POST", "/recording/start", "Start recording a new macro."));
    r.push(endpoint("POST", "/recording/stop", "Stop recording and save profile options."));
    r.push(endpoint("DELETE", "/macros/:name", "Delete macro and profile."));
    r.push(endpoint("POST", "/mouse/move", "Move mouse to absolute x, y coordinates."));
    r.push(endpoint("POST", "/mouse/drag", "Drag mouse relatively by delta_x, delta_y."));
    assert(endpoint_views(r@) =~= endpoint_table());
    r
}

/// Whether `about` describes the macro `name` with `profile`.
pub open spec fn describes(about: MacroAboutResponse, name: Seq<char>, profile: MacroProfile) -> bool {
    &&& about.name@ == name
    &&& about.description == profile.description
    &&& about.use_when == profile.use_when
    &&& about.method == profile.method
    &&& about.input_kind == profile.input_kind
    &&& about.output_kind == profile.output_kind
    &&& about.accepts@ == accepts_text(profile.input_kind)
    &&& about.returns_info@ == returns_text(profile.output_kind)
    &&& about.invoke_endpoint@ == invoke_path(name)
}

/// The help page for the macros `configs`: the service `nyx-macro-api` at
/// `http://127.0.0.1:4777`, the routes of `endpoint_table`, and one
/// description per macro, in order.
pub fn help_response(configs: &Vec<MacroConfig>) -> (r: HelpResponse)
    ensures
        r.service@ == "nyx-macro-api"@,
        r.base_url@ == "http://127.0.0.1:4777"@,
        endpoint_views(r.endpoints@) == endpoint_table(),
        r.macros@.len() == configs@.len(),
        forall|i: int|
            0 <= i < configs@.len() ==> describes(
                #[trigger] r.macros@[i],
                configs@[i].name@,
                configs@[i].profile,
            ),
{
    let mut macros: Vec<MacroAboutResponse> = Vec::new();
    let mut i: usize = 0;
    while i < configs.len()
        invariant
            i <= configs@.len(),
            macros@.len() == i,
            forall|j: int|
                0 <= j < i ==> describes(
                    #[trigger] macros@[j],
                    configs@[j].name@,
                    configs@[j].profile,
                ),
        decreases configs@.len() - i,
    {
        let cfg = &configs[i];
        macros.push(macro_about_from_profile(cfg.name.as_str(), clone_profile(&cfg.profile)));
        i = i + 1;
    }
    HelpResponse {
        service: string_from("nyx-macro-api"),
        base_url: string_from("http://127.0.0.1:4777"),
        endpoints: help_endpoints(),
        macros,
    }
}

// ---------------------------------------------------------------------------
// Recording and invoking
// ---------------------------------------------------------------------------

/// The profile options that may come with the request to stop recording.
#[derive(Debug)]
pub struct StopRecordingRequest {
    pub name: String,
    pub method: Option<MacroHttpMethod>,
    pub input_kind: Option<MacroDataKind>,
    pub output_kind: Option<MacroDataKind>,
    pub description: Option<String>,
    pub use_when: Option<String>,
}

/// `profile` with each option that the request gives put in its place.
pub fn apply_stop_recording_options(profile: MacroProfile, request: &StopRecordingRequest) -> (r:
    MacroProfile)
    ensures
        r.name == profile.name,
        r.method == (match request.method {
            Some(m) => m,
            None => profile.method,
        }),
        r.input_kind == (match request.input_kind {
            Some(k) => k,
            None => profile.input_kind,
        }),
        r.output_kind == (match request.output_kind {
            Some(k) => k,
            None => profile.output_kind,
        }),
        r.description == (match request.description {
            Some(d) => d,
            None => profile.description,
        }),
        r.use_when == (match request.use_when {
            Some(u) => u,
            None => profile.use_when,
        }),
{
    let mut profile = profile;
    match request.method {
        Some(m) => {
            profile.method = m;
        },
        None => {},
    }
    match request.input_kind {
        Some(k) => {
            profile.input_kind = k;
        },
        None => {},
    }
    match request.output_kind {
        Some(k) => {
            profile.output_kind = k;
        },
        None => {},
    }
    match &request.description {
        Some(d) => {
            profile.description = d.clone();
        },
        None => {},
    }
    match &request.use_when {
        Some(u) => {
            profile.use_when = u.clone();
        },
        None => {},
    }
    profile
}

/// Whether a macro with the profile method `method` may be invoked by a
/// POST (`is_post`) or by a GET.
pub open spec fn method_allowed(method: MacroHttpMethod, is_post: bool) -> bool {
    if is_post {
        method == MacroHttpMethod::POST
    } else {
        method == MacroHttpMethod::GET
    }
}

/// Refuses, with status 405, an invocation through the method the profile
/// does not name: a POST of a GET macro is told `only supports GET`, a GET
/// of a POST macro `only supports POST`.
pub fn check_invoke_method(name: &str, method: MacroHttpMethod, is_post: bool) -> (r: Result<
    (),
    (u16, ApiMessage),
>)
    ensures
        method_allowed(method, is_post) <==> r is Ok,
        r matches Err((status, msg)) ==> status == 405 && !msg.success && msg.message@ == "Macro '"@
            + name@ + (if is_post {
            "' only supports GET."@
        } else {
            "' only supports POST."@
        }),
{
    if is_post && method != MacroHttpMethod::POST {
        return Err((405, ApiMessage { success: false, message: framed("Macro '", name, "' only supports GET.") }));
    }
    if !is_post && method != MacroHttpMethod::GET {
        return Err((405, ApiMessage { success: false, message: framed("Macro '", name, "' only supports POST.") }));
    }
    Ok(())
}

/// The reply to a successful invocation of `name`.
#[derive(Debug)]
pub struct InvokeResponse {
    pub success: bool,
    pub macro_name: String,
    pub message: String,
    pub output_text: Option<String>,
    pub output_image_base64: Option<String>,
}

/// The reply to a successful invocation of `name`: a POST carries the
/// clipboard output read after the macro, a GET carries none.
pub fn invoke_response(
    name: String,
    is_post: bool,
    output_text: Option<String>,
    output_image_base64: Option<String>,
) -> (r: InvokeResponse)
    ensures
        r.success,
        r.macro_name == name,
        r.message@ == "Macro executed successfully."@,
        is_post ==> r.output_text == output_text && r.output_image_base64 == output_image_base64,
        !is_post ==> r.output_text is None && r.output_image_base64 is None,
{
    let (output_text, output_image_base64) = if is_post {
        (output_text, output_image_base64)
    } else {
        (None, None)
    };
    InvokeResponse {
        success: true,
        macro_name: name,
        message: string_from("Macro executed successfully."),
        output_text,
        output_image_base64,
    }
}


// ---------------------------------------------------------------------------
// Running a macro
// ---------------------------------------------------------------------------

/// The session context of a playing macro.
pub open spec fn playing_context(name: Seq<char>) -> Seq<char> {
    "Playing macro: "@ + name
}

/// Takes the playback slot for `name` and puts the agent into executing
/// it. Refused, changing nothing, while another macro plays; refused, with
/// the slot emptied again, while the agent is not idle.
pub fn begin_macro_execution(runtime: &mut MacroRuntime, orchestrator: &mut Orchestrator, name: &String) -> (r:
    Result<(), String>)
    ensures
        match begin_next(old(runtime)@, name@) {
            Err(m) => (r matches Err(t) && t@ == m) && final(runtime)@ == old(runtime)@
                && final(orchestrator)@ == old(orchestrator)@,
            Ok(v) => if old(orchestrator)@.state != AppState::IDLE {
                (r matches Err(t) && t@ == "Cannot play macro while the agent is not idle."@)
                    && final(runtime)@ is None && final(orchestrator)@ == old(orchestrator)@
            } else {
                r is Ok && final(runtime)@ == v && final(orchestrator)@ == execute_next(
                    old(orchestrator)@,
                    playing_context(name@),
                )->Ok_0
            },
        },
{
    runtime.begin(name.clone())?;
    if orchestrator.state != AppState::IDLE {
        runtime.clear();
        return Err(string_from("Cannot play macro while the agent is not idle."));
    }
    let context = framed("Playing macro: ", name.as_str(), "");
    proof {
        reveal_strlit("");
        assert(context@ =~= playing_context(name@));
    }
    match orchestrator.start_executing(context) {
        Ok(()) => Ok(()),
        Err(e) => Err(e.message()),
    }
}

/// Returns the agent to idle and empties the playback slot after a macro
/// ran.
pub fn finish_macro_execution(runtime: &mut MacroRuntime, orchestrator: &mut Orchestrator)
    ensures
        final(runtime)@ is None,
        final(orchestrator)@ == stop_next(old(orchestrator)@),
{
    let _ = orchestrator.stop();
    runtime.clear();
}

/// The outcome of a run: the playback's error wins over the error of
/// returning to idle.
pub fn combine_execution_results(execution: Result<(), String>, stop: Result<(), String>) -> (r:
    Result<(), String>)
    ensures
        match (execution, stop) {
            (Ok(()), Ok(())) => r is Ok,
            (Err(e), _) => r == Err::<(), String>(e),
            (Ok(()), Err(s)) => r == Err::<(), String>(s),
        },
{
    match (execution, stop) {
        (Ok(()), Ok(())) => Ok(()),
        (Err(e), _) => Err(e),
        (Ok(()), Err(s)) => Err(s),
    }
}

/// The key presses that switch to a new virtual desktop (Win+Ctrl+D), each
/// with the pause in milliseconds that follows it.
pub open spec fn new_desktop_keys() -> Seq<(EventType, u64)> {
    seq![
        (EventType::KeyPress(Key::MetaLeft), 8u64),
        (EventType::KeyPress(Key::ControlLeft), 8u64),
        (EventType::KeyPress(Key::KeyD), 8u64),
        (EventType::KeyRelease(Key::KeyD), 8u64),
        (EventType::KeyRelease(Key::ControlLeft), 8u64),
        (EventType::KeyRelease(Key::MetaLeft), 100u64),
    ]
}

/// The events, with pauses, that switch to a new virtual desktop before a
/// macro plays.
pub fn switch_to_new_desktop() -> (r: Vec<(EventType, u64)>)
    ensures
        r@ == new_desktop_keys(),
{
    let mut r: Vec<(EventType, u64)> = Vec::new();
    r.push((EventType::KeyPress(Key::MetaLeft), 8));
    r.push((EventType::KeyPress(Key::ControlLeft), 8));
    r.push((EventType::KeyPress(Key::KeyD), 8));
    r.push((EventType::KeyRelease(Key::KeyD), 8));
    r.push((EventType::KeyRelease(Key::ControlLeft), 8));
    r.push((EventType::KeyRelease(Key::MetaLeft), 100));
    assert(r@ =~= new_desktop_keys());
    r
}

// ---------------------------------------------------------------------------
// The clipboard
// ---------------------------------------------------------------------------

/// What goes onto the clipboard before a macro plays.
#[derive(Debug)]
pub enum ClipboardInput {
    /// Nothing.
    Untouched,
    Text(String),
    ImageBase64(String),
    ImageFile(String),
}

/// What goes onto the clipboard for a macro taking `kind`: nothing; the
/// text (empty when none was given); the base64 image, else the image file.
/// An image macro given neither is refused.
pub fn clipboard_input_plan(kind: MacroDataKind, input: &InvokeBody) -> (r: Result<
    ClipboardInput,
    String,
>)
    ensures
        match kind {
            MacroDataKind::Nothing => r matches Ok(ClipboardInput::Untouched),
            MacroDataKind::Text => r matches Ok(ClipboardInput::Text(t)) && t@ == match input.text {
                Some(x) => x@,
                None => Seq::<char>::empty(),
            },
            MacroDataKind::Image => match (input.image_base64, input.attachment_path) {
                (Some(b), _) => r matches Ok(ClipboardInput::ImageBase64(x)) && x == b,
                (None, Some(p)) => r matches Ok(ClipboardInput::ImageFile(x)) && x == p,
                (None, None) => r matches Err(m) && m@
                    == "Image input macro requires `image_base64` or `attachment_path`."@,
            },
        },
{
    match kind {
        MacroDataKind::Nothing => Ok(ClipboardInput::Untouched),
        MacroDataKind::Text => {
            let payload = match &input.text {
                Some(t) => t.clone(),
                None => String::new(),
            };
            Ok(ClipboardInput::Text(payload))
        },
        MacroDataKind::Image => {
            match &input.image_base64 {
                Some(b) => {
                    return Ok(ClipboardInput::ImageBase64(b.clone()));
                },
                None => {},
            }
            match &input.attachment_path {
                Some(p) => {
                    return Ok(ClipboardInput::ImageFile(p.clone()));
                },
                None => {},
            }
            Err(string_from("Image input macro requires `image_base64` or `attachment_path`."))
        },
    }
}

/// The ways of putting text on the clipboard, in the order they are tried.
#[derive(PartialEq, Eq, Structural, Clone, Copy, Debug)]
pub enum ClipboardTextMethod {
    /// `Set-Clipboard` through PowerShell.
    PowerShell,
    /// `clip.exe`.
    ClipExe,
    /// The clipboard crate, kept alive briefly.
    Arboard,
}

/// The method tried first.
pub open spec fn first_text_method() -> ClipboardTextMethod {
    ClipboardTextMethod::PowerShell
}

/// The method to try first when putting text on the clipboard.
pub fn first_clipboard_text_method() -> (r: ClipboardTextMethod)
    ensures
        r == first_text_method(),
{
    ClipboardTextMethod::PowerShell
}

/// What follows putting text on the clipboard with `method` and reading
/// it back (`verified`: it matched): done (`Ok(None)`); otherwise the next
/// method, PowerShell then clip.exe then the clipboard crate; after the
/// last one, the error.
pub open spec fn clipboard_text_step(method: ClipboardTextMethod, verified: bool) -> Result<
    Option<ClipboardTextMethod>,
    Seq<char>,
> {
    if verified {
        Ok(None)
    } else {
        match method {
            ClipboardTextMethod::PowerShell => Ok(Some(ClipboardTextMethod::ClipExe)),
            ClipboardTextMethod::ClipExe => Ok(Some(ClipboardTextMethod::Arboard)),
            ClipboardTextMethod::Arboard => Err("Clipboard text did not match after all methods."@),
        }
    }
}

/// What to do after putting text on the clipboard with `method` and
/// reading it back, as `clipboard_text_step` says.
pub fn next_clipboard_text_method(method: ClipboardTextMethod, verified: bool) -> (r: Result<
    Option<ClipboardTextMethod>,
    String,
>)
    ensures
        match clipboard_text_step(method, verified) {
            Ok(n) => r == Ok::<Option<ClipboardTextMethod>, String>(n),
            Err(m) => r matches Err(t) && t@ == m,
        },
{
    if verified {
        return Ok(None);
    }
    match method {
        ClipboardTextMethod::PowerShell => Ok(Some(ClipboardTextMethod::ClipExe)),
        ClipboardTextMethod::ClipExe => Ok(Some(ClipboardTextMethod::Arboard)),
        ClipboardTextMethod::Arboard => Err(
            string_from("Clipboard text did not match after all methods."),
        ),
    }
}

/// A run of the steps from `method`, the `i`-th read-back giving
/// `checks[i]`: the method after which the text matched, or the error.
pub open spec fn clipboard_text_run(method: ClipboardTextMethod, checks: Seq<bool>, i: int) -> Result<
    ClipboardTextMethod,
    Seq<char>,
>
    decreases checks.len() - i,
{
    if i < 0 || i >= checks.len() {
        Err("Clipboard text did not match after all methods."@)
    } else {
        match clipboard_text_step(method, checks[i]) {
            Ok(None) => Ok(method),
            Ok(Some(next)) => clipboard_text_run(next, checks, i + 1),
            Err(e) => Err(e),
        }
    }
}

/// The PowerShell command that puts `text` on the clipboard, single quotes
/// doubled inside the quoted value.
pub open spec fn set_clipboard_command(text: Seq<char>) -> Seq<char> {
    "Set-Clipboard -Value '"@ + replace_seq(text, "'"@, "''"@) + "'"@
}

/// The PowerShell command that puts `text` on the clipboard.
pub fn powershell_set_clipboard_command(text: &str) -> (r: String)
    ensures
        r@ == set_clipboard_command(text@),
{
    let mut out: Vec<char> = Vec::new();
    append_str(&mut out, "Set-Clipboard -Value '");
    let q = chars_of("'");
    proof {
        reveal_strlit("'");
    }
    let escaped = replace_chars(&chars_of(text), &q, &chars_of("''"));
    append_chars(&mut out, &escaped);
    append_str(&mut out, "'");
    string_of(&out)
}

/// Whether the clipboard holds `expected`, line endings normalized.
pub fn clipboard_text_matches(expected: &str, current: &str) -> (r: bool)
    ensures
        r == (replace_seq(current@, "\r\n"@, "\n"@) == replace_seq(expected@, "\r\n"@, "\n"@)),
{
    normalize_line_endings(current) == normalize_line_endings(expected)
}

/// Whether text read back through PowerShell holds `expected`: trimmed,
/// line endings normalized.
pub fn clipboard_readback_matches(expected: &str, got: &str) -> (r: bool)
    ensures
        r == (replace_seq(trim(got@), "\r\n"@, "\n"@) == replace_seq(expected@, "\r\n"@, "\n"@)),
{
    let t = crate::text::trim_str(got);
    normalize_line_endings(t.as_str()) == normalize_line_endings(expected)
}

/// Index of the first occurrence of `pat` in `s`, searching from `i`.
pub open spec fn first_occurrence(s: Seq<char>, pat: Seq<char>, i: int) -> Option<int>
    decreases s.len() + 1 - i,
{
    if i < 0 || i > s.len() {
        None
    } else if occurs_at(s, pat, i) {
        Some(i)
    } else {
        first_occurrence(s, pat, i + 1)
    }
}

/// What follows the first `base64,` in `s`, if it has one
/// (`str::split_once`).
pub open spec fn after_base64_marker(s: Seq<char>) -> Option<Seq<char>> {
    match first_occurrence(s, "base64,"@, 0) {
        Some(i) => Some(s.skip(i + 7)),
        None => None,
    }
}

fn split_after_base64_marker(s: &Vec<char>) -> (r: Option<Vec<char>>)
    ensures
        match after_base64_marker(s@) {
            Some(t) => r matches Some(x) && x@ == t,
            None => r is None,
        },
{
    let pat = chars_of("base64,");
    proof {
        reveal_strlit("base64,");
    }
    assert(pat@.len() == 7);
    let mut i: usize = 0;
    while i < s.len()
        invariant
            i <= s.len(),
            pat@ == "base64,"@,
            pat@.len() == 7,
            first_occurrence(s@, pat@, 0) == first_occurrence(s@, pat@, i as int),
        decreases s.len() - i,
    {
        if matches_at(s, &pat, i) {
            return Some(slice_chars(s, i + 7, s.len()));
        }
        i = i + 1;
    }
    assert(first_occurrence(s@, pat@, i as int) is None) by {
        assert(!occurs_at(s@, pat@, i as int));
        assert(first_occurrence(s@, pat@, i + 1) is None);
    }
    None
}

/// The image bytes in a base64 payload, after anything up to a `data:`
/// URL's `base64,` marker: the bytes must be base64.
pub open spec fn payload_bytes(payload: Seq<char>) -> Result<Seq<u8>, Seq<char>> {
    let raw = match after_base64_marker(payload) {
        Some(t) => t,
        None => payload,
    };
    match base64_decoded(raw) {
        None => Err("Invalid base64 image payload: "@ + base64_error_text(raw)),
        Some(bytes) => Ok(bytes),
    }
}

/// The image bytes of a base64 payload, as `payload_bytes` says.
pub fn image_payload_bytes(payload: &str) -> (r: Result<Vec<u8>, String>)
    ensures
        match payload_bytes(payload@) {
            Ok(b) => r matches Ok(v) && v@ == b,
            Err(m) => r matches Err(t) && t@ == m,
        },
{
    let pc = chars_of(payload);
    let raw = match split_after_base64_marker(&pc) {
        Some(t) => string_of(&t),
        None => string_of(&pc),
    };
    match base64_decode(raw.as_str()) {
        Ok(b) => Ok(b),
        Err(e) => Err(prefixed("Invalid base64 image payload: ", &e)),
    }
}

/// The pixels of an input image, given how decoding its bytes went: the
/// decoder's error is reported as a failure to decode the payload.
pub fn decoded_payload_pixels(decoded: Result<RgbaPixels, String>) -> (r: Result<RgbaPixels, String>)
    ensures
        match decoded {
            Ok(p) => r matches Ok(q) && q == p,
            Err(e) => r matches Err(t) && t@ == "Failed to decode input image payload: "@ + e@,
        },
{
    match decoded {
        Ok(p) => Ok(p),
        Err(e) => Err(prefixed("Failed to decode input image payload: ", &e)),
    }
}

proof fn lemma_no_marker(s: Seq<char>, i: int)
    requires
        0 <= i,
        forall|k: int| 0 <= k < s.len() ==> is_base64_char(#[trigger] s[k]),
    ensures
        first_occurrence(s, "base64,"@, i) is None,
    decreases s.len() + 1 - i,
{
    reveal_strlit("base64,");
    if i <= s.len() {
        if occurs_at(s, "base64,"@, i) {
            assert(s.subrange(i, i + 7)[6] == s[i + 6]);
            assert(is_base64_char(s[i + 6]));
        }
        lemma_no_marker(s, i + 1);
    }
}

/// The image bytes of an attachment file: the file's bytes are put in
/// base64 and read back as a payload, which gives them back unchanged.
pub fn attachment_image_bytes(bytes: &[u8]) -> (r: Result<Vec<u8>, String>)
    ensures
        r matches Ok(v) && v@ == bytes@,
{
    let encoded = base64_encode(bytes);
    proof {
        lemma_no_marker(encoded@, 0);
    }
    image_payload_bytes(encoded.as_str())
}

/// What to do after one attempt to read the clipboard back.
#[derive(PartialEq, Eq, Structural, Clone, Copy, Debug)]
pub enum ReadAttempt {
    /// The attempt succeeded: use what was read.
    Use,
    /// Wait `pause_millis`; then try again if `retry`, else give up on this
    /// way of reading.
    Wait { pause_millis: u64, retry: bool },
}

/// After attempt number `attempt` (from 0) to read an image off the
/// clipboard: use it when there was one; otherwise wait 50 ms, and try
/// again unless this was the 20th attempt.
pub open spec fn image_read_next(attempt: u64, got_image: bool) -> ReadAttempt {
    if got_image {
        ReadAttempt::Use
    } else {
        ReadAttempt::Wait { pause_millis: 50, retry: attempt + 1 < 20 }
    }
}

/// What to do after an attempt to read an image off the clipboard, as
/// `image_read_next` says.
pub fn image_read_attempt(attempt: u64, got_image: bool) -> (r: ReadAttempt)
    ensures
        r == image_read_next(attempt, got_image),
{
    if got_image {
        ReadAttempt::Use
    } else {
        ReadAttempt::Wait { pause_millis: 50, retry: attempt < 19 }
    }
}

/// After attempt number `attempt` (from 0) to read the clipboard text back
/// and compare it: done when it matched; otherwise wait 15 ms, and try
/// again unless this was the 6th attempt.
pub open spec fn text_check_next(attempt: u64, matched: bool) -> ReadAttempt {
    if matched {
        ReadAttempt::Use
    } else {
        ReadAttempt::Wait { pause_millis: 15, retry: attempt + 1 < 6 }
    }
}

/// What to do after an attempt to read the clipboard text back, as
/// `text_check_next` says.
pub fn text_check_attempt(attempt: u64, matched: bool) -> (r: ReadAttempt)
    ensures
        r == text_check_next(attempt, matched),
{
    if matched {
        ReadAttempt::Use
    } else {
        ReadAttempt::Wait { pause_millis: 15, retry: attempt < 5 }
    }
}

/// The clipboard output of an image read off the clipboard: the pixels as
/// PNG, in base64. A buffer longer than the image's pixels is not admitted
/// (the PNG encoder asserts on it).
pub fn image_output_base64(pixels: RgbaPixels) -> (r: Result<String, String>)
    requires
        pixels.bytes@.len() <= 4 * pixels.width * pixels.height,
    ensures
        (pixels.bytes@.len() < 4 * pixels.width * pixels.height) ==> (r matches Err(m) && m@
            == "Failed to construct RGBA image from clipboard."@),
        !(pixels.bytes@.len() < 4 * pixels.width * pixels.height) ==> (match png_encoded(
            pixels.width,
            pixels.height,
            pixels.bytes@,
        ) {
            Some(png) => r matches Ok(s) && s@ == base64_encoded(png),
            None => r matches Err(m) && m@ == "Failed to encode clipboard image as PNG: "@
                + png_error_text(pixels.width, pixels.height, pixels.bytes@),
        }),
{
    match encode_png(pixels.width, pixels.height, pixels.bytes) {
        PngOutcome::BufferTooSmall => Err(string_from("Failed to construct RGBA image from clipboard.")),
        PngOutcome::EncodeFailed(e) => Err(prefixed("Failed to encode clipboard image as PNG: ", &e)),
        PngOutcome::Encoded(png) => Ok(base64_encode(png.as_slice())),
    }
}

/// Base64 image data found in clipboard text instead of an image: what
/// follows a `base64,` marker, trimmed, if it is valid base64; else the
/// whole text, trimmed, if it is valid base64.
pub open spec fn clipboard_text_base64(text: Seq<char>) -> Option<Seq<char>> {
    let from_marker = match after_base64_marker(text) {
        Some(b) => if base64_decoded(trim(b)) is Some {
            Some(trim(b))
        } else {
            None
        },
        None => None,
    };
    match from_marker {
        Some(t) => Some(t),
        None => if base64_decoded(trim(text)) is Some {
            Some(trim(text))
        } else {
            None
        },
    }
}

/// Base64 image data in clipboard text, as `clipboard_text_base64` says.
pub fn base64_from_clipboard_text(text: &str) -> (r: Option<String>)
    ensures
        opt_view(r) == clipboard_text_base64(text@),
{
    let tc = chars_of(text);
    match split_after_base64_marker(&tc) {
        Some(b) => {
            let t = string_of(&trim_chars(&b, TrimClass::WhiteSpace));
            if base64_decode(t.as_str()).is_ok() {
                return Some(t);
            }
        },
        None => {},
    }
    let t = string_of(&trim_chars(&tc, TrimClass::WhiteSpace));
    if base64_decode(t.as_str()).is_ok() {
        Some(t)
    } else {
        None
    }
}


/// The image output when no image could be read off the clipboard: base64
/// image data found in the clipboard text (`text`, when it could be read),
/// else the error that no image payload was read.
pub fn image_output_from_text(text: Option<String>) -> (r: Result<String, String>)
    ensures
        match text {
            Some(t) => match clipboard_text_base64(t@) {
                Some(b) => r matches Ok(x) && x@ == b,
                None => r matches Err(m) && m@ == "Failed to read clipboard image payload after retries."@,
            },
            None => r matches Err(m) && m@ == "Failed to read clipboard image payload after retries."@,
        },
{
    match text {
        Some(t) => match base64_from_clipboard_text(t.as_str()) {
            Some(b) => {
                return Ok(b);
            },
            None => {},
        },
        None => {},
    }
    Err(string_from("Failed to read clipboard image payload after retries."))
}

// ---------------------------------------------------------------------------
// Laws
// ---------------------------------------------------------------------------

proof fn lemma_body_choice_has_field(p: Seq<CandidateParse>, i: int)
    ensures
        body_choice(p, i) matches Some(b) ==> has_any_field(b),
    decreases p.len() - i,
{
    if 0 <= i < p.len() {
        lemma_body_choice_has_field(p, i + 1);
    }
}

/// An empty request body is read with no field; a non-empty one whose
/// cleaned text holds anything besides surrounding white space and double
/// quotes is read with a field, whatever the parsers made of it.
pub proof fn law_body_with_text_has_a_field(
    raw: Seq<u8>,
    readings: Seq<Option<InvokeBody>>,
    r: InvokeBody,
)
    requires
        body_read_as(raw, readings, r),
    ensures
        raw.len() == 0 ==> !has_any_field(r),
        raw.len() > 0 && trim_by(trim(sanitized(raw)), TrimClass::Quote).len() > 0 ==> has_any_field(r),
{
    if raw.len() > 0 {
        let t = sanitized(raw);
        let p = candidate_parses(sorted_candidates(t), readings);
        lemma_body_choice_has_field(p, 0);
    }
}

/// Clipboard text is put with PowerShell, then clip.exe, then the
/// clipboard crate, each tried only when the read-back after the one
/// before did not match; the run ends with the first method whose
/// read-back matches, and with the error when none does.
pub proof fn law_clipboard_methods_in_order(checks: Seq<bool>)
    requires
        checks.len() == 3,
    ensures
        clipboard_text_run(first_text_method(), checks, 0) == (if checks[0] {
            Ok(ClipboardTextMethod::PowerShell)
        } else if checks[1] {
            Ok(ClipboardTextMethod::ClipExe)
        } else if checks[2] {
            Ok(ClipboardTextMethod::Arboard)
        } else {
            Err::<ClipboardTextMethod, Seq<char>>("Clipboard text did not match after all methods."@)
        }),
{
    reveal_with_fuel(clipboard_text_run, 4);
}

/// The body itself is always among the texts tried.
pub proof fn law_body_is_a_candidate(raw: Seq<char>)
    ensures
        candidate_list(raw).to_set().contains(raw),
{
    assert(candidate_list(raw)[0] == raw);
}

/// Each macro is invoked through exactly one method, the one its profile
/// names.
pub proof fn law_one_invoke_method(method: MacroHttpMethod)
    ensures
        method_allowed(method, true) != method_allowed(method, false),
        method_allowed(method, true) <==> method == MacroHttpMethod::POST,
{
}

/// A macro run leaves the agent as it found it: an idle agent without a
/// task that begins playing a macro and then finishes is as it was, with
/// the playback slot empty again.
pub proof fn law_run_restores_agent(o: crate::orchestrator::OrchestratorView, name: Seq<char>)
    requires
        o.state == AppState::IDLE,
        o.session is None,
    ensures
        execute_next(o, playing_context(name)) is Ok,
        stop_next(execute_next(o, playing_context(name))->Ok_0) == o,
        begin_next(None, name) is Ok,
{
}

} // verus!
