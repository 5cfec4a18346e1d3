//! Names, keys and short texts derived from labels.
use vstd::prelude::*;
use vstd::string::StrSliceExecFns;

use crate::bench::schema::CompareSide;
use crate::text::{chars_of, push_str, string_from_chars, string_push, to_string};

verus! {

/// A character that may stand in a label as it is: ASCII letters and digits,
/// `-` and `_`.
pub open spec fn label_char_kept(c: char) -> bool {
    ('a' <= c && c <= 'z') || ('A' <= c && c <= 'Z') || ('0' <= c && c <= '9') || c == '-' || c
        == '_'
}

/// A label character, or `-` in its place.
pub open spec fn sanitize_char(c: char) -> char {
    if label_char_kept(c) {
        c
    } else {
        '-'
    }
}

/// A label with every other character replaced by `-`.
pub open spec fn sanitized(s: Seq<char>) -> Seq<char> {
    s.map_values(|c: char| sanitize_char(c))
}

/// Replace every character but ASCII letters, digits, `-` and `_` with `-`.
pub fn sanitize_label(value: &str) -> (r: String)
    ensures
        r@ == sanitized(value@),
{
    let cs = chars_of(value);
    let mut out: Vec<char> = Vec::new();
    let mut i: usize = 0;
    while i < cs.len()
        invariant
            cs@ == value@,
            i <= cs.len(),
            out@ == sanitized(value@.subrange(0, i as int)),
        decreases cs.len() - i,
    {
        let c = cs[i];
        let kept = ('a' <= c && c <= 'z') || ('A' <= c && c <= 'Z') || ('0' <= c && c <= '9')
            || c == '-' || c == '_';
        if kept {
            out.push(c);
        } else {
            out.push('-');
        }
        i = i + 1;
        assert(out@ =~= sanitized(value@.subrange(0, i as int)));
    }
    assert(value@.subrange(0, cs.len() as int) =~= value@);
    string_from_chars(&out)
}

/// Sanitizing keeps the length and leaves only label characters; a
/// sanitized label is unchanged by sanitizing it again.
pub proof fn lemma_sanitized_shape(s: Seq<char>)
    ensures
        sanitized(s).len() == s.len(),
        forall|i: int| 0 <= i < s.len() ==> label_char_kept(#[trigger] sanitized(s)[i]),
        sanitized(sanitized(s)) == sanitized(s),
        forall|i: int| 0 <= i < s.len() && label_char_kept(s[i]) ==> #[trigger] sanitized(s)[i]
            == s[i],
{
    assert(sanitized(sanitized(s)) =~= sanitized(s));
}

/// The key of one implementation's run of one case.
pub open spec fn run_key_text(variant_label: Seq<char>, case_id: Seq<char>) -> Seq<char> {
    sanitized(variant_label) + "_"@ + sanitized(case_id)
}

/// `{variant}_{case}`, both sanitized.
pub fn run_key(variant_label: &str, case_id: &str) -> (r: String)
    ensures
        r@ == run_key_text(variant_label@, case_id@),
{
    let mut s = sanitize_label(variant_label);
    string_push(&mut s, '_');
    let case = sanitize_label(case_id);
    push_str(&mut s, case.as_str());
    proof {
        reveal_strlit("_");
    }
    s
}

/// `bench-{label}`, sanitized: the name of a server's container.
pub fn container_name(label: &str) -> (r: String)
    ensures
        r@ == "bench-"@ + sanitized(label@),
{
    let mut s = to_string("bench-");
    let l = sanitize_label(label);
    push_str(&mut s, l.as_str());
    s
}

/// `case-{id}.svg`, sanitized: the file of a case's graph.
pub fn case_svg_filename(case_id: &str) -> (r: String)
    ensures
        r@ == "case-"@ + sanitized(case_id@) + ".svg"@,
{
    let mut s = to_string("case-");
    let l = sanitize_label(case_id);
    push_str(&mut s, l.as_str());
    push_str(&mut s, ".svg");
    s
}

/// `case-{id}-telemetry.svg`, sanitized: the file of a case's OS telemetry.
pub fn telemetry_svg_filename(case_id: &str) -> (r: String)
    ensures
        r@ == "case-"@ + sanitized(case_id@) + "-telemetry.svg"@,
{
    let mut s = to_string("case-");
    let l = sanitize_label(case_id);
    push_str(&mut s, l.as_str());
    push_str(&mut s, "-telemetry.svg");
    s
}

/// `{case}__{implementation}`, both sanitized: the key of one result.
pub fn result_key(case_id: &str, display_label: &str) -> (r: String)
    ensures
        r@ == sanitized(case_id@) + "__"@ + sanitized(display_label@),
{
    let mut s = sanitize_label(case_id);
    push_str(&mut s, "__");
    let l = sanitize_label(display_label);
    push_str(&mut s, l.as_str());
    s
}

/// A Markdown link to a file beside the summary: `[label](./path)`.
pub open spec fn link_text(path: Seq<char>, label: Seq<char>) -> Seq<char> {
    "["@ + label + "](./"@ + path + ")"@
}

pub fn markdown_link(path: &str, label: &str) -> (r: String)
    ensures
        r@ == link_text(path@, label@),
{
    let mut s = to_string("[");
    push_str(&mut s, label);
    push_str(&mut s, "](./");
    push_str(&mut s, path);
    push_str(&mut s, ")");
    s
}

/// The link when there is a file, `-` when there is none.
pub fn markdown_link_opt(path: Option<&str>, label: &str) -> (r: String)
    ensures
        path matches Some(p) ==> r@ == link_text(p@, label@),
        path is None ==> r@ == "-"@,
{
    match path {
        Some(p) => markdown_link(p, label),
        None => to_string("-"),
    }
}

/// The decimal digit for a value below ten.
pub open spec fn digit_char(d: nat) -> char {
    ((48 + d) as u32) as char
}

/// The decimal text of a number, without leading zeros.
pub open spec fn decimal(n: nat) -> Seq<char>
    decreases n,
{
    if n < 10 {
        seq![digit_char(n)]
    } else {
        decimal(n / 10).push(digit_char(n % 10))
    }
}

fn digit(d: u64) -> (c: char)
    requires
        d < 10,
    ensures
        c == digit_char(d as nat),
{
    let b: u8 = (48 + d) as u8;
    b as char
}

/// Appends the decimal text of `n`.
pub fn push_decimal(out: &mut String, n: u64)
    ensures
        final(out)@ == old(out)@ + decimal(n as nat),
    decreases n,
{
    if n >= 10 {
        push_decimal(out, n / 10);
    }
    string_push(out, digit(n % 10));
    proof {
        if n >= 10 {
            assert(decimal(n as nat) == decimal((n / 10) as nat).push(digit_char((n % 10) as nat)));
        }
    }
    assert(final(out)@ =~= old(out)@ + decimal(n as nat)) by {
        if n < 10 {
            assert(decimal(n as nat) =~= seq![digit_char(n as nat)]);
        }
    }
}

/// The number, or `-` when there is none.
pub fn format_optional_u32(value: Option<u32>) -> (r: String)
    ensures
        value matches Some(v) ==> r@ == decimal(v as nat),
        value is None ==> r@ == "-"@,
{
    match value {
        Some(v) => {
            let mut s = String::new();
            push_decimal(&mut s, v as u64);
            assert(s@ =~= decimal(v as nat));
            s
        },
        None => to_string("-"),
    }
}

/// One `status:count` entry.
pub open spec fn status_entry(status: Seq<char>, count: u64) -> Seq<char> {
    status + ":"@ + decimal(count as nat)
}

/// The entries, joined with `, `.
pub open spec fn joined_status_entries(codes: Seq<(String, u64)>) -> Seq<char>
    decreases codes.len(),
{
    if codes.len() == 0 {
        Seq::empty()
    } else if codes.len() == 1 {
        status_entry(codes[0].0@, codes[0].1)
    } else {
        joined_status_entries(codes.drop_last()) + ", "@ + status_entry(
            codes.last().0@,
            codes.last().1,
        )
    }
}

/// Status codes and their counts as `200:980, 503:20`, in the order given
/// (a map's key order), or `-` when there are none.
pub fn format_status_code_map(codes: &Vec<(String, u64)>) -> (r: String)
    ensures
        codes.len() == 0 ==> r@ == "-"@,
        codes.len() > 0 ==> r@ == joined_status_entries(codes@),
{
    if codes.len() == 0 {
        return to_string("-");
    }
    let mut s = String::new();
    let mut i: usize = 0;
    while i < codes.len()
        invariant
            i <= codes.len(),
            codes.len() > 0,
            s@ == joined_status_entries(codes@.subrange(0, i as int)),
        decreases codes.len() - i,
    {
        let ghost before = s@;
        if i > 0 {
            push_str(&mut s, ", ");
        }
        push_str(&mut s, codes[i].0.as_str());
        push_str(&mut s, ":");
        push_decimal(&mut s, codes[i].1);
        proof {
            let prefix = codes@.subrange(0, i + 1);
            assert(prefix.drop_last() =~= codes@.subrange(0, i as int));
            assert(prefix.last() == codes@[i as int]);
            reveal_strlit(", ");
            reveal_strlit(":");
            if i == 0 {
                assert(codes@.subrange(0, 0) =~= Seq::<(String, u64)>::empty());
                assert(s@ =~= status_entry(codes@[0].0@, codes@[0].1));
            } else {
                assert(s@ =~= before + ", "@ + status_entry(codes@[i as int].0@, codes@[i as int].1));
            }
        }
        i = i + 1;
    }
    assert(codes@.subrange(0, codes.len() as int) =~= codes@);
    s
}

/// The text cut to fit: unchanged when it has at most `max_chars`
/// characters, else its first `max_chars - 1` characters (none when
/// `max_chars` is zero) followed by `...`.
pub open spec fn trimmed(s: Seq<char>, max_chars: nat) -> Seq<char> {
    if s.len() <= max_chars {
        s
    } else {
        s.subrange(0, if max_chars == 0 { 0 } else { max_chars - 1 }) + "..."@
    }
}

pub fn trim_text(input: &str, max_chars: usize) -> (r: String)
    ensures
        r@ == trimmed(input@, max_chars as nat),
{
    let n = input.unicode_len();
    if n <= max_chars {
        to_string(input)
    } else {
        let keep = max_chars.saturating_sub(1);
        let cs = chars_of(input);
        let mut head: Vec<char> = Vec::new();
        let mut i: usize = 0;
        while i < keep
            invariant
                cs@ == input@,
                keep < cs.len(),
                i <= keep,
                head@ == input@.subrange(0, i as int),
            decreases keep - i,
        {
            head.push(cs[i]);
            i = i + 1;
            assert(head@ =~= input@.subrange(0, i as int));
        }
        let mut s = string_from_chars(&head);
        push_str(&mut s, "...");
        s
    }
}

/// A text that is short enough is unchanged; a cut one keeps a prefix of the
/// text and ends in `...`.
pub proof fn lemma_trimmed_shape(s: Seq<char>, max_chars: nat)
    ensures
        s.len() <= max_chars ==> trimmed(s, max_chars) == s,
        s.len() > max_chars ==> {
            let k: int = if max_chars == 0 { 0 } else { max_chars - 1 };
            &&& trimmed(s, max_chars).len() == k + 3
            &&& trimmed(s, max_chars).subrange(0, k) == s.subrange(0, k)
        },
{
    if s.len() > max_chars {
        reveal_strlit("...");
        let k: int = if max_chars == 0 { 0 } else { max_chars - 1 };
        assert(trimmed(s, max_chars).subrange(0, k) =~= s.subrange(0, k));
    }
}

/// The XML entity of a character that must be escaped, or the character.
pub open spec fn xml_escaped_char(c: char) -> Seq<char> {
    if c == '&' {
        "&amp;"@
    } else if c == '<' {
        "&lt;"@
    } else if c == '>' {
        "&gt;"@
    } else if c == '"' {
        "&quot;"@
    } else if c == '\'' {
        "&apos;"@
    } else {
        seq![c]
    }
}

/// A text with `&`, `<`, `>`, `"` and `'` written as XML entities.
pub open spec fn xml_escaped(s: Seq<char>) -> Seq<char>
    decreases s.len(),
{
    if s.len() == 0 {
        Seq::empty()
    } else {
        xml_escaped(s.drop_last()) + xml_escaped_char(s.last())
    }
}

/// Escape a text for XML attribute and element content.
pub fn xml_escape(input: &str) -> (r: String)
    ensures
        r@ == xml_escaped(input@),
{
    let cs = chars_of(input);
    let mut s = String::new();
    let mut i: usize = 0;
    while i < cs.len()
        invariant
            cs@ == input@,
            i <= cs.len(),
            s@ == xml_escaped(input@.subrange(0, i as int)),
        decreases cs.len() - i,
    {
        let c = cs[i];
        let ghost before = s@;
        if c == '&' {
            push_str(&mut s, "&amp;");
        } else if c == '<' {
            push_str(&mut s, "&lt;");
        } else if c == '>' {
            push_str(&mut s, "&gt;");
        } else if c == '"' {
            push_str(&mut s, "&quot;");
        } else if c == '\'' {
            push_str(&mut s, "&apos;");
        } else {
            string_push(&mut s, c);
        }
        proof {
            let prefix = input@.subrange(0, i + 1);
            assert(prefix.drop_last() =~= input@.subrange(0, i as int));
            assert(prefix.last() == c);
            assert(s@ =~= before + xml_escaped_char(c));
        }
        i = i + 1;
    }
    assert(input@.subrange(0, cs.len() as int) =~= input@);
    s
}

/// No markup character survives escaping.
pub proof fn lemma_xml_escaped_has_no_markup(s: Seq<char>)
    ensures
        forall|i: int|
            0 <= i < xml_escaped(s).len() ==> {
                let c = #[trigger] xml_escaped(s)[i];
                c != '<' && c != '>' && c != '"' && c != '\''
            },
    decreases s.len(),
{
    reveal_strlit("&amp;");
    reveal_strlit("&lt;");
    reveal_strlit("&gt;");
    reveal_strlit("&quot;");
    reveal_strlit("&apos;");
    if s.len() > 0 {
        lemma_xml_escaped_has_no_markup(s.drop_last());
        let a = xml_escaped(s.drop_last());
        let b = xml_escaped_char(s.last());
        assert forall|i: int| 0 <= i < xml_escaped(s).len() implies {
            let c = #[trigger] xml_escaped(s)[i];
            c != '<' && c != '>' && c != '"' && c != '\''
        } by {
            if i < a.len() {
                assert(xml_escaped(s)[i] == a[i]);
            } else {
                assert(xml_escaped(s)[i] == b[i - a.len()]);
            }
        }
    }
}

/// The rank of a result's side in the summary: left, then right, then the rest.
pub open spec fn side_rank(side: Option<CompareSide>) -> u8 {
    match side {
        Some(CompareSide::Left) => 0u8,
        Some(CompareSide::Right) => 1u8,
        None => 2u8,
    }
}

/// The order of a result in the summary: left, then right, then the rest.
pub fn compare_side_rank(side: Option<CompareSide>) -> (rank: u8)
    ensures
        rank == side_rank(side),
{
    match side {
        Some(CompareSide::Left) => 0,
        Some(CompareSide::Right) => 1,
        None => 2,
    }
}

pub const PRIMARY_COLOR: &'static str = "#ea580c";
pub const SECONDARY_COLOR: &'static str = "#0f766e";
pub const TERTIARY_COLOR: &'static str = "#1d4ed8";
pub const QUATERNARY_COLOR: &'static str = "#b45309";
pub const PRIMARY_FILL: &'static str = "#fff7ed";
pub const SECONDARY_FILL: &'static str = "#ecfdf5";
pub const TERTIARY_FILL: &'static str = "#eff6ff";
pub const QUATERNARY_FILL: &'static str = "#fef3c7";

/// The stroke and fill colors of the `index`-th series, in a cycle of four.
pub open spec fn accent_colors(index: nat) -> (Seq<char>, Seq<char>) {
    if index % 4 == 0 {
        (PRIMARY_COLOR@, PRIMARY_FILL@)
    } else if index % 4 == 1 {
        (SECONDARY_COLOR@, SECONDARY_FILL@)
    } else if index % 4 == 2 {
        (TERTIARY_COLOR@, TERTIARY_FILL@)
    } else {
        (QUATERNARY_COLOR@, QUATERNARY_FILL@)
    }
}

pub fn accent(index: usize) -> (r: (&'static str, &'static str))
    ensures
        (r.0@, r.1@) == accent_colors(index as nat),
{
    let k = index % 4;
    if k == 0 {
        (PRIMARY_COLOR, PRIMARY_FILL)
    } else if k == 1 {
        (SECONDARY_COLOR, SECONDARY_FILL)
    } else if k == 2 {
        (TERTIARY_COLOR, TERTIARY_FILL)
    } else {
        (QUATERNARY_COLOR, QUATERNARY_FILL)
    }
}

} // verus!
