use vstd::prelude::*;

verus! {

/// A type reference as written in a declaration, before any name resolution.
///
/// `name` is the last path segment of the type (`Arc` for `std::sync::Arc<..>`),
/// or empty for a type that is not a path (a reference, a tuple, ...).
/// `args` are the generic arguments of that last segment, in order.
/// `text` is the type as written, for emitting it again.
#[derive(Debug, PartialEq, Eq)]
pub struct TypeExpr {
    pub name: String,
    pub args: Vec<TypeExpr>,
    pub text: String,
}

/// The name of the shared-ownership handle.
pub open spec fn handle_name() -> Seq<char> {
    seq!['A', 'r', 'c']
}

/// The name of the mutual-exclusion lock.
pub open spec fn lock_name() -> Seq<char> {
    seq!['M', 'u', 't', 'e', 'x']
}

/// `t` is `name<a>` for exactly one generic argument `a`.
pub open spec fn is_single_arg(t: TypeExpr, name: Seq<char>) -> bool {
    t.name@ == name && t.args@.len() == 1
}

/// The payload `T` of a type of shape `Arc<Mutex<T>>`, or `None` for any other shape.
pub open spec fn wrapper_payload(t: TypeExpr) -> Option<TypeExpr> {
    if is_single_arg(t, handle_name()) && is_single_arg(t.args@[0], lock_name()) {
        Some(t.args@[0].args@[0])
    } else {
        None
    }
}

/// Whether `s` spells exactly the characters of `expected`.
pub fn spells(s: &String, expected: &str) -> (r: bool)
    ensures
        r == (s@ == expected@),
{
    let t = s.as_str();
    let n = t.unicode_len();
    if n != expected.unicode_len() {
        return false;
    }
    let mut i: usize = 0;
    while i < n
        invariant
            n == s@.len(),
            t@ == s@,
            n == expected@.len(),
            i <= n,
            s@.subrange(0, i as int) == expected@.subrange(0, i as int),
        decreases n - i,
    {
        if t.get_char(i) != expected.get_char(i) {
            assert(s@[i as int] != expected@[i as int]);
            return false;
        }
        proof {
            assert(s@.subrange(0, i + 1) =~= s@.subrange(0, i as int).push(s@[i as int]));
            assert(expected@.subrange(0, i + 1) =~= expected@.subrange(0, i as int).push(
                expected@[i as int],
            ));
        }
        i = i + 1;
    }
    proof {
        assert(s@ =~= s@.subrange(0, n as int));
        assert(expected@ =~= expected@.subrange(0, n as int));
    }
    true
}

/// Whether `t` is `name<a>` for exactly one generic argument `a`.
fn has_single_arg(t: &TypeExpr, name: &str) -> (r: bool)
    ensures
        r == is_single_arg(*t, name@),
{
    spells(&t.name, name) && t.args.len() == 1
}

/// Returns the payload `T` of a type of shape `Arc<Mutex<T>>`, borrowed from `t`,
/// and `None` for any other shape.
pub fn match_wrapper(t: &TypeExpr) -> (r: Option<&TypeExpr>)
    ensures
        match r {
            Some(p) => wrapper_payload(*t) == Some(*p),
            None => wrapper_payload(*t) is None,
        },
{
    proof {
        reveal_strlit("Arc");
        reveal_strlit("Mutex");
        assert("Arc"@ =~= handle_name());
        assert("Mutex"@ =~= lock_name());
    }
    if has_single_arg(t, "Arc") {
        let lock = &t.args[0];
        if has_single_arg(lock, "Mutex") {
            return Some(&lock.args[0]);
        }
    }
    None
}

} // verus!
