//! Small helpers on options and on paths held as text.

use vstd::prelude::*;
use vstd::string::*;

verus! {

/// The value inside `option`, or the default of its type where there is none.
pub fn option_to_str<T: Default>(option: Option<T>) -> (value: T)
    ensures
        option is Some ==> value == option->0,
        option is None ==> T::default.ensures((), value),
{
    option.unwrap_or_default()
}

/// Whether `path` starts at the root of the file system.
pub open spec fn is_absolute(path: Seq<char>) -> bool {
    path.len() > 0 && path[0] == '/'
}

/// `name` adjoined to `base`: an absolute `name` replaces `base`; otherwise a
/// separator is put between the two unless `base` is empty or already ends in one.
pub open spec fn joined(base: Seq<char>, name: Seq<char>) -> Seq<char> {
    if is_absolute(name) {
        name
    } else if base.len() > 0 && base.last() != '/' {
        base + seq!['/'] + name
    } else {
        base + name
    }
}

/// Adjoins `name` to `base` the way a path is extended by a further component.
pub fn join(base: &str, name: &str) -> (path: String)
    ensures
        path@ == joined(base@, name@),
{
    let name_len: usize = name.unicode_len();
    if name_len > 0 && name.get_char(0) == '/' {
        return String::from_str(name);
    }
    let base_len: usize = base.unicode_len();
    let mut path = String::from_str(base);
    if base_len > 0 && base.get_char(base_len - 1) != '/' {
        proof {
            reveal_strlit("/");
            assert("/"@ =~= seq!['/']);
        }
        path.append("/");
    }
    path.append(name);
    path
}

} // verus!
