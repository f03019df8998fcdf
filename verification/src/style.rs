//! Class-list and style-string composition shared by the layout components.
//!
//! Every component carries a base class and may receive a user class and a
//! user style; these helpers state exactly how the pieces are joined.

use vstd::prelude::*;
use vstd::string::StringExecFns;
use vstd::string::StrSliceExecFns;

verus! {

/// A base class joined with a user class by one space: `"base user"`.
pub open spec fn spec_joined_class(base: Seq<char>, user: Seq<char>) -> Seq<char> {
    base + seq![' '] + user
}

/// The class list of a component that takes an optional user class and skips
/// an empty one: the base class alone, or `"base user"`.
pub open spec fn spec_merged_class(base: Seq<char>, user: Option<Seq<char>>) -> Seq<char> {
    match user {
        Some(u) => if u.len() == 0 {
            base
        } else {
            spec_joined_class(base, u)
        },
        None => base,
    }
}

/// The class list of a component that joins any given user class, empty or
/// not: the base class alone, or `"base user"`.
pub open spec fn spec_class_list(base: Seq<char>, user: Option<Seq<char>>) -> Seq<char> {
    match user {
        Some(u) => spec_joined_class(base, u),
        None => base,
    }
}

/// A base style followed by a user style, with a `;` inserted when the base
/// is non-empty and does not already end with one.
pub open spec fn spec_styles_with_user(base: Seq<char>, user: Seq<char>) -> Seq<char> {
    if user.len() == 0 {
        base
    } else if base.len() > 0 && base.last() != ';' {
        base + seq![';'] + user
    } else {
        base + user
    }
}

/// Joins a base class and a user class with one space.
pub fn joined_class(base: &str, user: &str) -> (r: String)
    ensures
        r@ == spec_joined_class(base@, user@),
{
    proof {
        reveal_strlit(" ");
        assert(" "@ =~= seq![' ']);
    }
    let mut s = String::from_str(base);
    s.append(" ");
    s.append(user);
    s
}

/// The class list with an optional user class, skipping an empty one.
pub fn merged_class(base: &str, user: Option<&String>) -> (r: String)
    ensures
        r@ == spec_merged_class(
            base@,
            match user {
                Some(u) => Some(u@),
                None => None,
            },
        ),
{
    match user {
        Some(u) => {
            if u.as_str().is_empty() {
                String::from_str(base)
            } else {
                joined_class(base, u.as_str())
            }
        },
        None => String::from_str(base),
    }
}

/// The class list with an optional user class, joining any given one.
pub fn class_list(base: &str, user: Option<&String>) -> (r: String)
    ensures
        r@ == spec_class_list(
            base@,
            match user {
                Some(u) => Some(u@),
                None => None,
            },
        ),
{
    match user {
        Some(u) => joined_class(base, u.as_str()),
        None => String::from_str(base),
    }
}

/// Appends a user style to a built-up style string, separating the two with a
/// `;` when the built-up part does not already end with one. An empty user
/// style changes nothing.
pub fn append_user_style(styles: &mut String, user: &str)
    ensures
        final(styles)@ == spec_styles_with_user(old(styles)@, user@),
{
    proof {
        reveal_strlit(";");
        assert(";"@ =~= seq![';']);
    }
    if user.is_empty() {
        return ;
    }
    let len = styles.as_str().unicode_len();
    if len > 0 {
        let last = styles.as_str().get_char(len - 1);
        if last != ';' {
            styles.append(";");
        }
    }
    styles.append(user);
}

} // verus!
