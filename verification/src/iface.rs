//! Finding a machine's network interface in the output of `ip -o addr`.
use vstd::prelude::*;
use vstd::string::*;
use crate::text::{
    lemma_line_occurs, lemma_lines_append, lemma_occurs_within, lines_of, occurs, split_lines,
    views,
};

verus! {

/// The error of the regular-expression engine.
#[verifier::external_type_specification]
#[verifier::external_body]
pub struct ExRegexError(regex::Error);

/// Whether `regex::Regex::new` accepts `pattern`.
pub uninterp spec fn regex_accepts(pattern: Seq<char>) -> bool;

/// What capture group `group` holds after `regex::Regex::captures` has searched `haystack`
/// for the leftmost match of `pattern`: `None` if there is no match or the group took no part
/// in it.
pub uninterp spec fn regex_capture(pattern: Seq<char>, haystack: Seq<char>, group: nat) -> Option<Seq<char>>;

/// The text of an optional string.
pub open spec fn opt_view(s: Option<String>) -> Option<Seq<char>> {
    match s {
        Some(s) => Some(s@),
        None => None,
    }
}

/// The texts of a list of optional strings.
pub open spec fn opt_views(c: Seq<Option<String>>) -> Seq<Option<Seq<char>>> {
    Seq::new(c.len(), |i: int| opt_view(c[i]))
}

/// Compiles `pattern` with `regex::Regex::new`, searches `haystack` with `Regex::captures`
/// and hands out the text of capture group `group` as `Captures::get` and `Match::as_str`
/// give it. The call fails exactly when the engine rejects the pattern; otherwise its result
/// is the engine's, which depends on the three arguments alone. What a group holds is a
/// slice of the haystack, so it occurs in it.
#[verifier::external_body]
fn capture_group(pattern: &str, haystack: &str, group: usize) -> (r: Result<
    Option<String>,
    regex::Error,
>)
    ensures
        r is Ok == regex_accepts(pattern@),
        r matches Ok(found) ==> opt_view(found) == regex_capture(
            pattern@,
            haystack@,
            group as nat,
        ),
        r matches Ok(Some(found)) ==> occurs(haystack@, found@),
{
    let re = regex::Regex::new(pattern)?;
    Ok(re.captures(haystack).and_then(|c| c.get(group)).map(|m| m.as_str().to_string()))
}

/// Why no interface name came out.
#[derive(Clone, Copy, Debug, PartialEq, Eq)]
pub enum IfaceError {
    /// No line names an interface other than the loopback.
    NoMatch,
    /// The regular-expression engine rejected the pattern.
    Pattern,
}

/// The pattern that a line of `ip -o addr` has to hold: the interface's number and a colon,
/// the interface's name (lower-case letters, then digits), and the word `inet`, with white
/// space between them. The name is capture group 1.
pub open spec fn iface_pattern() -> Seq<char> {
    r"[0-9]+:\s+([a-z]+[0-9]+)\s+inet"@
}

/// The name of the loopback interface, which is never the answer.
pub open spec fn loopback() -> Seq<char> {
    "lo"@
}

/// A capture names an interface that can be used: it is there and is not the loopback.
pub open spec fn usable(capture: Option<Seq<char>>) -> bool {
    capture matches Some(name) && name != loopback()
}

/// `r` is the first usable capture of `captures`, or the error that there is none.
pub open spec fn is_first_usable(
    captures: Seq<Option<Seq<char>>>,
    r: Result<String, IfaceError>,
) -> bool {
    match r {
        Ok(name) => exists|i: int|
            0 <= i < captures.len() && #[trigger] captures[i] == Some(name@) && usable(captures[i])
                && forall|j: int| 0 <= j < i ==> !usable(#[trigger] captures[j]),
        Err(e) => e == IfaceError::NoMatch && forall|i: int|
            0 <= i < captures.len() ==> !usable(#[trigger] captures[i]),
    }
}

/// Lines without a usable name are passed over: putting such lines before others does not
/// change what is found.
pub proof fn law_lines_without_a_name_are_passed_over(
    before: Seq<Option<Seq<char>>>,
    rest: Seq<Option<Seq<char>>>,
    r: Result<String, IfaceError>,
)
    requires
        forall|i: int| 0 <= i < before.len() ==> !usable(#[trigger] before[i]),
    ensures
        is_first_usable(before + rest, r) == is_first_usable(rest, r),
{
    let all = before + rest;
    let n = before.len() as int;
    assert forall|i: int| 0 <= i < rest.len() implies #[trigger] rest[i] == all[i + n] by {}
    assert forall|i: int| 0 <= i < n implies #[trigger] all[i] == before[i] by {}
    match r {
        Ok(name) => {
            if is_first_usable(all, r) {
                let i = choose|i: int|
                    0 <= i < all.len() && #[trigger] all[i] == Some(name@) && usable(all[i])
                        && forall|j: int| 0 <= j < i ==> !usable(#[trigger] all[j]);
                if i < n {
                    assert(all[i] == before[i]);
                }
                assert(rest[i - n] == all[i]);
                assert forall|j: int| 0 <= j < i - n implies !usable(#[trigger] rest[j]) by {
                    assert(rest[j] == all[j + n]);
                }
                assert(is_first_usable(rest, r));
            }
            if is_first_usable(rest, r) {
                let i = choose|i: int|
                    0 <= i < rest.len() && #[trigger] rest[i] == Some(name@) && usable(rest[i])
                        && forall|j: int| 0 <= j < i ==> !usable(#[trigger] rest[j]);
                assert(all[i + n] == rest[i]);
                assert forall|j: int| 0 <= j < i + n implies !usable(#[trigger] all[j]) by {
                    if j < n {
                        assert(all[j] == before[j]);
                    } else {
                        assert(all[j] == rest[j - n]);
                    }
                }
                assert(is_first_usable(all, r));
            }
        },
        Err(_) => {
            if is_first_usable(all, r) {
                assert forall|i: int| 0 <= i < rest.len() implies !usable(#[trigger] rest[i]) by {
                    assert(rest[i] == all[i + n]);
                }
            }
            if is_first_usable(rest, r) {
                assert forall|i: int| 0 <= i < all.len() implies !usable(#[trigger] all[i]) by {
                    if i < n {
                        assert(all[i] == before[i]);
                    } else {
                        assert(all[i] == rest[i - n]);
                    }
                }
            }
        },
    }
}

/// What follows the first usable name changes nothing: putting lines after lines that hold
/// a usable name does not change what is found.
pub proof fn law_lines_after_the_name_change_nothing(
    found: Seq<Option<Seq<char>>>,
    after: Seq<Option<Seq<char>>>,
    r: Result<String, IfaceError>,
)
    requires
        exists|i: int| 0 <= i < found.len() && usable(#[trigger] found[i]),
    ensures
        is_first_usable(found + after, r) == is_first_usable(found, r),
{
    let all = found + after;
    let n = found.len() as int;
    let u = choose|i: int| 0 <= i < found.len() && usable(#[trigger] found[i]);
    assert(all[u] == found[u]);
    match r {
        Ok(name) => {
            if is_first_usable(all, r) {
                let i = choose|i: int|
                    0 <= i < all.len() && #[trigger] all[i] == Some(name@) && usable(all[i])
                        && forall|j: int| 0 <= j < i ==> !usable(#[trigger] all[j]);
                if i > u {
                    assert(!usable(all[u]));
                }
                assert(found[i] == all[i]);
                assert forall|j: int| 0 <= j < i implies !usable(#[trigger] found[j]) by {
                    assert(found[j] == all[j]);
                }
                assert(is_first_usable(found, r));
            }
            if is_first_usable(found, r) {
                let i = choose|i: int|
                    0 <= i < found.len() && #[trigger] found[i] == Some(name@) && usable(
                        found[i],
                    ) && forall|j: int| 0 <= j < i ==> !usable(#[trigger] found[j]);
                assert(all[i] == found[i]);
                assert forall|j: int| 0 <= j < i implies !usable(#[trigger] all[j]) by {
                    assert(all[j] == found[j]);
                }
                assert(is_first_usable(all, r));
            }
        },
        Err(_) => {
            if is_first_usable(all, r) {
                assert(!usable(all[u]));
            }
            if is_first_usable(found, r) {
                assert(!usable(found[u]));
            }
        },
    }
}

/// What the lines of two texts hold is what the lines of the first hold and then what the
/// lines of the second hold, provided the first is empty or ends with a line feed.
proof fn lemma_captures_append(pattern: Seq<char>, a: Seq<char>, b: Seq<char>)
    requires
        a.len() == 0 || a.last() == '\n',
    ensures
        captures_of(pattern, a + b) == captures_of(pattern, a) + captures_of(pattern, b),
{
    lemma_lines_append(a, b);
    assert(captures_of(pattern, a + b) =~= captures_of(pattern, a) + captures_of(pattern, b));
}

/// Leading lines without a usable name change nothing. If `before` is made of whole lines
/// of which none holds a usable name, searching `before + rest` gives what searching `rest`
/// gives.
pub proof fn law_leading_lines_without_a_name_change_nothing(
    pattern: Seq<char>,
    before: Seq<char>,
    rest: Seq<char>,
    r: Result<String, IfaceError>,
)
    requires
        regex_accepts(pattern),
        before.len() == 0 || before.last() == '\n',
        forall|i: int|
            0 <= i < captures_of(pattern, before).len() ==> !usable(
                #[trigger] captures_of(pattern, before)[i],
            ),
    ensures
        is_first_capture(pattern, before + rest, r) == is_first_capture(pattern, rest, r),
{
    lemma_captures_append(pattern, before, rest);
    law_lines_without_a_name_are_passed_over(
        captures_of(pattern, before),
        captures_of(pattern, rest),
        r,
    );
}

/// What follows the line with the name changes nothing. If `found` is made of whole lines
/// of which one holds a usable name, searching `found + after` gives what searching `found`
/// gives.
pub proof fn law_text_after_the_name_changes_nothing(
    pattern: Seq<char>,
    found: Seq<char>,
    after: Seq<char>,
    r: Result<String, IfaceError>,
)
    requires
        regex_accepts(pattern),
        found.len() == 0 || found.last() == '\n',
        exists|i: int|
            0 <= i < captures_of(pattern, found).len() && usable(
                #[trigger] captures_of(pattern, found)[i],
            ),
    ensures
        is_first_capture(pattern, found + after, r) == is_first_capture(pattern, found, r),
{
    lemma_captures_append(pattern, found, after);
    law_lines_after_the_name_change_nothing(
        captures_of(pattern, found),
        captures_of(pattern, after),
        r,
    );
}

/// The first of `captures` that names a usable interface.
pub fn first_usable(captures: &Vec<Option<String>>) -> (r: Result<String, IfaceError>)
    ensures
        is_first_usable(opt_views(captures@), r),
{
    let lo = String::from_str("lo");
    let mut i: usize = 0;
    while i < captures.len()
        invariant
            i <= captures.len(),
            lo@ == loopback(),
            forall|j: int| 0 <= j < i ==> !usable(#[trigger] opt_views(captures@)[j]),
        decreases captures.len() - i,
    {
        match &captures[i] {
            Some(name) => {
                if *name != lo {
                    let found = name.clone();
                    assert(opt_views(captures@)[i as int] == Some(found@));
                    return Ok(found);
                }
            },
            None => {},
        }
        i += 1;
    }
    Err(IfaceError::NoMatch)
}

/// What capture group 1 of `pattern` holds in each line of `output`.
pub open spec fn captures_of(pattern: Seq<char>, output: Seq<char>) -> Seq<Option<Seq<char>>> {
    lines_of(output).map_values(|line: Seq<char>| regex_capture(pattern, line, 1))
}

/// `r` is what searching the lines of `output` for `pattern` gives: `Err(Pattern)` exactly
/// when there is a line to search and the engine rejects the pattern, `Err(NoMatch)` when no
/// line holds a usable capture, and otherwise the capture of the first line that holds one.
pub open spec fn is_first_capture(
    pattern: Seq<char>,
    output: Seq<char>,
    r: Result<String, IfaceError>,
) -> bool {
    if lines_of(output).len() > 0 && !regex_accepts(pattern) {
        r == Err::<String, IfaceError>(IfaceError::Pattern)
    } else {
        is_first_usable(captures_of(pattern, output), r)
    }
}

/// Searches each line of `output` on its own for `pattern` and gives what capture group 1
/// holds in the first line where that is a usable name.
pub fn first_capture(pattern: &str, output: &str) -> (r: Result<String, IfaceError>)
    ensures
        is_first_capture(pattern@, output@, r),
        r matches Ok(name) ==> occurs(output@, name@),
{
    let lines = split_lines(output);
    let mut captures: Vec<Option<String>> = Vec::new();
    let mut i: usize = 0;
    while i < lines.len()
        invariant
            i <= lines.len(),
            views(lines@) == lines_of(output@),
            captures.len() == i,
            i > 0 ==> regex_accepts(pattern@),
            forall|j: int|
                0 <= j < i ==> #[trigger] opt_views(captures@)[j] == regex_capture(
                    pattern@,
                    lines@[j]@,
                    1,
                ),
            forall|j: int|
                0 <= j < i ==> (#[trigger] opt_views(captures@)[j] matches Some(c) ==> occurs(
                    lines@[j]@,
                    c,
                )),
        decreases lines.len() - i,
    {
        match capture_group(pattern, lines[i].as_str(), 1) {
            Ok(found) => {
                let ghost before = captures@;
                captures.push(found);
                assert forall|j: int| 0 <= j < i + 1 implies #[trigger] opt_views(captures@)[j]
                    == regex_capture(pattern@, lines@[j]@, 1) && (opt_views(
                    captures@,
                )[j] matches Some(c) ==> occurs(lines@[j]@, c)) by {
                    if j < i {
                        assert(opt_views(before)[j] == opt_views(captures@)[j]);
                    }
                }
            },
            Err(_) => {
                return Err(IfaceError::Pattern);
            },
        }
        i += 1;
    }
    assert(opt_views(captures@) =~= captures_of(pattern@, output@)) by {
        assert forall|j: int| 0 <= j < lines.len() implies opt_views(captures@)[j] == captures_of(
            pattern@,
            output@,
        )[j] by {
            assert(views(lines@)[j] == lines@[j]@);
        }
    }
    let r = first_usable(&captures);
    proof {
        if r is Ok {
            let name = r->Ok_0@;
            let k = choose|k: int|
                0 <= k < captures.len() && #[trigger] opt_views(captures@)[k] == Some(name);
            assert(occurs(lines@[k]@, name));
            assert(views(lines@)[k] == lines@[k]@);
            lemma_line_occurs(output@, k);
            lemma_occurs_within(output@, lines@[k]@, name);
        }
    }
    r
}

/// The name of the first interface, other than the loopback, that a line of `ip_addr_out`
/// shows with an address; `ip_addr_out` is the output of `ip -o addr`. Each line is searched
/// on its own for the interface pattern.
pub fn iface_name(ip_addr_out: String) -> (r: Result<String, IfaceError>)
    ensures
        is_first_capture(iface_pattern(), ip_addr_out@, r),
        r matches Ok(name) ==> occurs(ip_addr_out@, name@),
{
    first_capture(r"[0-9]+:\s+([a-z]+[0-9]+)\s+inet", ip_addr_out.as_str())
}

} // verus!
