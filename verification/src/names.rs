//! Naming rules: how a handler method's identifier becomes a wire name, how a
//! wire name becomes a request variant name, and how the names under which a
//! route is registered are put together.

use vstd::prelude::*;
use vstd::string::*;

verus! {

/// The upper-case form of an ASCII lower-case letter; any other character
/// is left as it is.
pub open spec fn ascii_upper(c: char) -> char {
    if 'a' <= c && c <= 'z' {
        ((c as u32) - 32) as char
    } else {
        c
    }
}

/// Whether `c` separates words in a snake-case identifier.
pub open spec fn is_snake_separator(c: char) -> bool {
    c == '_'
}

/// Whether `c` separates words in a wire name: an underscore or a hyphen.
pub open spec fn is_variant_separator(c: char) -> bool {
    c == '_' || c == '-'
}

/// The first `n` characters of `s` with its separators removed and each
/// character that follows a separator capitalised. With `initial`, the
/// first character counts as following a separator.
pub open spec fn recased(
    s: Seq<char>,
    n: nat,
    separator: spec_fn(char) -> bool,
    initial: bool,
) -> Seq<char>
    decreases n,
{
    if n == 0 || n > s.len() {
        Seq::empty()
    } else {
        let i = (n - 1) as int;
        let head = recased(s, i as nat, separator, initial);
        if separator(s[i]) {
            head
        } else if (i == 0 && initial) || (i > 0 && separator(s[i - 1])) {
            head.push(ascii_upper(s[i]))
        } else {
            head.push(s[i])
        }
    }
}

/// `block_number` becomes `blockNumber`.
pub open spec fn camel_case(s: Seq<char>) -> Seq<char> {
    recased(s, s.len(), |c: char| is_snake_separator(c), false)
}

/// `get_block-hash` becomes `GetBlockHash`.
pub open spec fn variant_case(s: Seq<char>) -> Seq<char> {
    recased(s, s.len(), |c: char| is_variant_separator(c), true)
}

/// The characters of the word `subscribe`.
pub open spec fn subscribe_prefix() -> Seq<char> {
    seq!['s', 'u', 'b', 's', 'c', 'r', 'i', 'b', 'e']
}

/// The characters of the word `unsubscribe`.
pub open spec fn unsubscribe_prefix() -> Seq<char> {
    seq!['u', 'n'] + subscribe_prefix()
}

/// Whether `s` begins with `prefix`.
pub open spec fn has_prefix(s: Seq<char>, prefix: Seq<char>) -> bool {
    prefix.len() <= s.len() && s.subrange(0, prefix.len() as int) == prefix
}

/// The unsubscribe name that belongs to a subscribe name: `subscribeX`
/// gives `unsubscribeX`; a name that does not begin with `subscribe` gives
/// nothing.
pub open spec fn unsubscribe_name(method: Seq<char>) -> Option<Seq<char>> {
    if has_prefix(method, subscribe_prefix()) {
        Some(unsubscribe_prefix() + method.skip(subscribe_prefix().len() as int))
    } else {
        None
    }
}

/// A name with its namespace: `{namespace}{separator}{method}`, or the
/// method alone where there is no namespace.
pub open spec fn qualified_name(
    namespace: Option<Seq<char>>,
    separator: Seq<char>,
    method: Seq<char>,
) -> Seq<char> {
    match namespace {
        Some(ns) => ns + separator + method,
        None => method,
    }
}

/// The views of a list of strings.
pub open spec fn string_views(names: Seq<String>) -> Seq<Seq<char>> {
    Seq::new(names.len(), |i: int| names[i]@)
}

/// Calls `String::push`, which appends one character to the string.
#[verifier::external_body]
pub(crate) fn push_char(s: &mut String, c: char)
    ensures
        final(s)@ == old(s)@.push(c),
{
    s.push(c)
}

/// The ASCII upper-case form of `c`.
pub fn to_ascii_upper(c: char) -> (r: char)
    ensures
        r == ascii_upper(c),
{
    if 'a' <= c && c <= 'z' {
        let code: u8 = c as u8;
        (code - 32) as char
    } else {
        c
    }
}

/// Converts snake_case to camelCase: underscores are dropped and the
/// character after an underscore is capitalised.
pub fn snake_to_camel(s: &str) -> (result: String)
    ensures
        result@ == camel_case(s@),
{
    let mut result = String::new();
    let mut capitalize_next = false;
    let len: usize = s.unicode_len();
    let mut i: usize = 0;
    let ghost separator = |c: char| is_snake_separator(c);
    while i < len
        invariant
            len == s@.len(),
            i <= len,
            separator == (|c: char| is_snake_separator(c)),
            result@ == recased(s@, i as nat, separator, false),
            capitalize_next == (i > 0 && is_snake_separator(s@[i - 1])),
        decreases len - i,
    {
        let ch = s.get_char(i);
        if ch == '_' {
            capitalize_next = true;
        } else if capitalize_next {
            push_char(&mut result, to_ascii_upper(ch));
            capitalize_next = false;
        } else {
            push_char(&mut result, ch);
        }
        i += 1;
    }
    result
}

/// The name of the request variant for a wire name: underscores and
/// hyphens are dropped, and the first character and each character after
/// one of them are capitalised.
pub fn to_variant_name(method_name: &str) -> (result: String)
    ensures
        result@ == variant_case(method_name@),
{
    let mut result = String::new();
    let mut capitalize_next = true;
    let len: usize = method_name.unicode_len();
    let mut i: usize = 0;
    let ghost separator = |c: char| is_variant_separator(c);
    while i < len
        invariant
            len == method_name@.len(),
            i <= len,
            separator == (|c: char| is_variant_separator(c)),
            result@ == recased(method_name@, i as nat, separator, true),
            capitalize_next == (i == 0 || is_variant_separator(method_name@[i - 1])),
        decreases len - i,
    {
        let ch = method_name.get_char(i);
        if ch == '_' || ch == '-' {
            capitalize_next = true;
        } else if capitalize_next {
            push_char(&mut result, to_ascii_upper(ch));
            capitalize_next = false;
        } else {
            push_char(&mut result, ch);
        }
        i += 1;
    }
    result
}

/// Whether `s` begins with `prefix`.
pub fn starts_with(s: &str, prefix: &str) -> (r: bool)
    ensures
        r == has_prefix(s@, prefix@),
{
    let n: usize = prefix.unicode_len();
    if n > s.unicode_len() {
        return false;
    }
    let mut i: usize = 0;
    while i < n
        invariant
            n == prefix@.len(),
            n <= s@.len(),
            i <= n,
            s@.subrange(0, i as int) == prefix@.subrange(0, i as int),
        decreases n - i,
    {
        if s.get_char(i) != prefix.get_char(i) {
            assert(s@.subrange(0, n as int)[i as int] != prefix@[i as int]);
            return false;
        }
        assert(s@.subrange(0, i + 1) =~= s@.subrange(0, i as int).push(s@[i as int]));
        assert(prefix@.subrange(0, i + 1) =~= prefix@.subrange(0, i as int).push(prefix@[i as int]));
        i += 1;
    }
    assert(prefix@.subrange(0, n as int) =~= prefix@);
    true
}

/// Derives the unsubscribe method from a subscribe method: `subscribeX`
/// gives `unsubscribeX`. A name that does not begin with `subscribe` has no
/// derived unsubscribe method.
pub fn build_unsubscribe_method(method: &str) -> (result: Option<String>)
    ensures
        match result {
            Some(name) => unsubscribe_name(method@) == Some(name@),
            None => unsubscribe_name(method@) is None,
        },
{
    proof {
        reveal_strlit("subscribe");
        reveal_strlit("unsubscribe");
    }
    assert("subscribe"@ =~= subscribe_prefix());
    assert("unsubscribe"@ =~= unsubscribe_prefix());
    if starts_with(method, "subscribe") {
        let rest = method.substring_char(9, method.unicode_len());
        assert(rest@ =~= method@.skip(9));
        let mut name = String::from_str("unsubscribe");
        name.append(rest);
        Some(name)
    } else {
        None
    }
}

/// The names under which a route is registered: its primary name first,
/// then its aliases in their order.
pub fn names_with_aliases(primary: &str, aliases: &Vec<String>) -> (names: Vec<String>)
    ensures
        string_views(names@) == seq![primary@] + string_views(aliases@),
{
    let mut names: Vec<String> = Vec::with_capacity(1);
    names.push(String::from_str(primary));
    let mut i: usize = 0;
    while i < aliases.len()
        invariant
            i <= aliases.len(),
            names.len() == i + 1,
            names@[0]@ == primary@,
            forall|k: int| 0 <= k < i ==> (#[trigger] names@[k + 1])@ == aliases@[k]@,
        decreases aliases.len() - i,
    {
        names.push(aliases[i].clone());
        i += 1;
    }
    assert forall|j: int| 1 <= j < names@.len() implies names@[j]@ == aliases@[j - 1]@ by {
        assert(names@[(j - 1) + 1]@ == aliases@[j - 1]@);
    }
    assert(string_views(names@) =~= seq![primary@] + string_views(aliases@));
    names
}

} // verus!
