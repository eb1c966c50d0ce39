//! Choice of the active filter expression.
//!
//! An operator can override the compiled-in filter at process start through
//! the environment.  The override governs exactly when it is present and
//! well-formed; otherwise the configured expression does.  Whether an
//! expression is well-formed is the judgement of the outside filter parser.
//!
//! The outside parser trims each comma-separated directive before reading it,
//! but slices the untrimmed text with the trimmed text's indices, so a
//! directive that begins with whitespace is misread, and aborts the process
//! when the whitespace precedes a multibyte character.  The library therefore
//! strips the whitespace that leads each directive itself, under proof,
//! before consulting the parser, and the parser is never handed a directive
//! led by whitespace.

use vstd::prelude::*;

verus! {

/// Whether a character is whitespace: the Unicode `White_Space` set, which
/// is what the outside parser trims from a directive.
pub open spec fn is_space_char(c: char) -> bool {
    ||| (c as u32) == 0x09
    ||| (c as u32) == 0x0A
    ||| (c as u32) == 0x0B
    ||| (c as u32) == 0x0C
    ||| (c as u32) == 0x0D
    ||| (c as u32) == 0x20
    ||| (c as u32) == 0x85
    ||| (c as u32) == 0xA0
    ||| (c as u32) == 0x1680
    ||| (0x2000 <= (c as u32) && (c as u32) <= 0x200A)
    ||| (c as u32) == 0x2028
    ||| (c as u32) == 0x2029
    ||| (c as u32) == 0x202F
    ||| (c as u32) == 0x205F
    ||| (c as u32) == 0x3000
}

/// Whether a character is whitespace, executably.
pub fn space_char(c: char) -> (r: bool)
    ensures
        r == is_space_char(c),
{
    let code: u32 = c as u32;
    code == 0x09 || code == 0x0A || code == 0x0B || code == 0x0C || code == 0x0D || code == 0x20
        || code == 0x85 || code == 0xA0 || code == 0x1680 || (0x2000 <= code && code <= 0x200A)
        || code == 0x2028 || code == 0x2029 || code == 0x202F || code == 0x205F || code == 0x3000
}

/// Whether no directive of the expression begins with whitespace, counting a
/// directive as beginning at the start of the expression or right after a
/// comma, with `at_start` saying whether the first character begins one.
pub open spec fn clean_from(s: Seq<char>, at_start: bool) -> bool {
    forall|i: int|
        0 <= i < s.len() && ((i == 0 && at_start) || (0 < i && s[i - 1] == ',')) ==> !is_space_char(
            #[trigger] s[i],
        )
}

/// Whether no directive of the expression begins with whitespace.  Only such
/// expressions may be handed to the outside parser.
pub open spec fn directives_space_free(s: Seq<char>) -> bool {
    clean_from(s, true)
}

/// The expression with the whitespace that leads each directive removed,
/// with `at_start` saying whether the first character begins a directive.
pub open spec fn strip_lead(s: Seq<char>, at_start: bool) -> Seq<char>
    decreases s.len(),
{
    if s.len() == 0 {
        s
    } else if at_start && is_space_char(s[0]) {
        strip_lead(s.drop_first(), true)
    } else {
        seq![s[0]] + strip_lead(s.drop_first(), s[0] == ',')
    }
}

/// The expression with the whitespace that leads each directive removed.
pub open spec fn strip_directive_space(s: Seq<char>) -> Seq<char> {
    strip_lead(s, true)
}

/// After stripping, no directive begins with whitespace.
proof fn lemma_strip_clean(s: Seq<char>, at_start: bool)
    ensures
        clean_from(strip_lead(s, at_start), at_start),
    decreases s.len(),
{
    if s.len() == 0 {
    } else if at_start && is_space_char(s[0]) {
        lemma_strip_clean(s.drop_first(), true);
    } else {
        lemma_strip_clean(s.drop_first(), s[0] == ',');
        let t = strip_lead(s.drop_first(), s[0] == ',');
        let r = seq![s[0]] + t;
        assert forall|i: int|
            0 <= i < r.len() && ((i == 0 && at_start) || (0 < i && r[i - 1] == ',')) implies !is_space_char(
            r[i],
        ) by {
            if i == 0 {
                assert(r[0] == s[0]);
            } else if i == 1 {
                assert(r[0] == s[0]);
                assert(r[1] == t[0]);
            } else {
                assert(r[i - 1] == t[i - 2]);
                assert(r[i] == t[i - 1]);
            }
        }
    }
}

/// Removes the whitespace that leads each comma-separated directive.
pub fn normalize_filter(s: &str) -> (r: String)
    ensures
        r@ == strip_directive_space(s@),
        directives_space_free(r@),
{
    let len = s.unicode_len();
    let mut out = String::new();
    let mut at_start: bool = true;
    let mut i: usize = 0;
    proof {
        assert(s@.subrange(0, len as int) =~= s@);
        assert(Seq::<char>::empty() + strip_lead(s@, true) =~= strip_lead(s@, true));
    }
    while i < len
        invariant
            len == s@.len(),
            i <= len,
            strip_lead(s@, true) == out@ + strip_lead(
                s@.subrange(i as int, len as int),
                at_start,
            ),
        decreases len - i,
    {
        let ghost pre = out@;
        let ghost sub = s@.subrange(i as int, len as int);
        let c = s.get_char(i);
        proof {
            assert(sub[0] == s@[i as int]);
            assert(sub.drop_first() =~= s@.subrange(i as int + 1, len as int));
        }
        if at_start && space_char(c) {
            i = i + 1;
        } else {
            out.append(s.substring_char(i, i + 1));
            proof {
                assert(s@.subrange(i as int, i as int + 1) =~= seq![s@[i as int]]);
                assert((pre + seq![s@[i as int]]) + strip_lead(sub.drop_first(), s@[i as int] == ',')
                    =~= pre + (seq![s@[i as int]] + strip_lead(
                    sub.drop_first(),
                    s@[i as int] == ',',
                )));
            }
            at_start = c == ',';
            i = i + 1;
        }
    }
    proof {
        assert(s@.subrange(len as int, len as int) =~= Seq::<char>::empty());
        assert(out@ + Seq::<char>::empty() =~= out@);
        lemma_strip_clean(s@, true);
    }
    out
}

/// Whether the outside filter parser accepts a filter expression.
pub uninterp spec fn filter_well_formed(s: Seq<char>) -> bool;

/// Relies on tracing_subscriber::EnvFilter::try_new: parses a filter
/// expression, succeeding or failing on the characters of the expression
/// alone.  Its directive parser slices the untrimmed directive with the
/// trimmed directive's indices and can abort on a directive led by
/// whitespace, so such expressions are excluded.
#[verifier::external_body]
fn filter_parses(s: &str) -> (r: bool)
    requires
        directives_space_free(s@),
    ensures
        r == filter_well_formed(s@),
{
    tracing_subscriber::EnvFilter::try_new(s).is_ok()
}

/// Picks the filter expression that governs: the environment override where
/// one is present (`Some`) and well-formed once the whitespace leading each
/// directive is stripped, the configured expression otherwise.
pub fn effective_filter(env_override: Option<&str>, configured: &str) -> (r: String)
    ensures
        r@ == (match env_override {
            Some(e) => if filter_well_formed(strip_directive_space(e@)) {
                strip_directive_space(e@)
            } else {
                configured@
            },
            None => configured@,
        }),
{
    match env_override {
        Some(e) => {
            let cleaned = normalize_filter(e);
            if filter_parses(cleaned.as_str()) {
                cleaned
            } else {
                configured.to_owned()
            }
        },
        None => configured.to_owned(),
    }
}

} // verus!
