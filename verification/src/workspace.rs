//! The rules of the workspace that holds the generated packages: where a
//! new member goes, and how the service package is named.

use crate::text::str_eq;
use vstd::prelude::*;
use vstd::std_specs::iter::IteratorSpec;

verus! {

/// Whether `a` comes before `b` in the order of strings: character by
/// character, a proper prefix first.
pub open spec fn precedes(a: Seq<char>, b: Seq<char>) -> bool
    decreases a.len(),
{
    if b.len() == 0 {
        false
    } else if a.len() == 0 {
        true
    } else if a[0] != b[0] {
        a[0] < b[0]
    } else {
        precedes(a.skip(1), b.skip(1))
    }
}

/// The values of a list of members; a member that is no string has none.
pub open spec fn member_views(members: Seq<Option<String>>) -> Seq<Option<Seq<char>>> {
    members.map_values(
        |m: Option<String>|
            match m {
                Some(s) => Some(s@),
                None => None,
            },
    )
}

/// Whether the package is among the members.
pub open spec fn is_member(members: Seq<Option<Seq<char>>>, package: Seq<char>) -> bool {
    members.contains(Some(package))
}

/// Whether a member is a string that the package comes before.
pub open spec fn follows(member: Option<Seq<char>>, package: Seq<char>) -> bool {
    match member {
        Some(m) => precedes(package, m),
        None => false,
    }
}

/// Where a new member goes: in front of the first member that it comes
/// before, at the end where there is none.
pub open spec fn place(members: Seq<Option<Seq<char>>>, package: Seq<char>) -> int {
    match members.map_values(|m: Option<Seq<char>>| follows(m, package)).index_of_first(true) {
        Some(i) => i,
        None => members.len() as int,
    }
}

/// Whether `a` comes before `b` in the order of strings.
pub fn str_lt(a: &str, b: &str) -> (r: bool)
    ensures
        r == precedes(a@, b@),
{
    let mut x = a.chars();
    let mut y = b.chars();
    let ghost mut k: int = 0;
    assert(a@.skip(0) =~= a@);
    assert(b@.skip(0) =~= b@);
    loop
        invariant
            0 <= k <= a@.len(),
            k <= b@.len(),
            x.remaining() == a@.skip(k),
            y.remaining() == b@.skip(k),
            precedes(a@, b@) == precedes(a@.skip(k), b@.skip(k)),
        decreases a@.len() - k,
    {
        let q = y.next();
        let d = match q {
            Some(d) => d,
            None => {
                return false;
            },
        };
        let p = x.next();
        let c = match p {
            Some(c) => c,
            None => {
                return true;
            },
        };
        if c != d {
            return c < d;
        }
        proof {
            assert(a@.skip(k).skip(1) =~= a@.skip(k + 1));
            assert(b@.skip(k).skip(1) =~= b@.skip(k + 1));
            k = k + 1;
        }
    }
}

/// Where the package goes among the members of the workspace; `None` where
/// it is a member already.
pub fn member_position(members: &[Option<String>], package: &str) -> (r: Option<usize>)
    ensures
        r == (if is_member(member_views(members@), package@) {
            None
        } else {
            Some(place(member_views(members@), package@) as usize)
        }),
        r matches Some(i) ==> i <= members@.len(),
{
    let ghost views = member_views(members@);
    let ghost after = views.map_values(|m: Option<Seq<char>>| follows(m, package@));
    let n = members.len();
    let mut found: Option<usize> = None;
    let mut i: usize = 0;
    while i < n
        invariant
            i <= n,
            n == members.len(),
            views == member_views(members@),
            after == views.map_values(|m: Option<Seq<char>>| follows(m, package@)),
            forall|j: int| 0 <= j < i ==> views[j] != Some(package@),
            match found {
                Some(k) => k < i && after[k as int] && forall|j: int| 0 <= j < k ==> !after[j],
                None => forall|j: int| 0 <= j < i ==> !after[j],
            },
        decreases n - i,
    {
        match &members[i] {
            Some(member) => {
                assert(views[i as int] == Some(member@));
                if str_eq(member.as_str(), package) {
                    assert(views.contains(Some(package@)));
                    return None;
                }
                if found.is_none() && str_lt(package, member.as_str()) {
                    found = Some(i);
                }
            },
            None => {
                assert(views[i as int] == None::<Seq<char>>);
            },
        }
        i = i + 1;
    }
    proof {
        after.index_of_first_ensures(true);
        if let Some(k) = found {
            assert(after.contains(true));
        }
    }
    match found {
        Some(k) => Some(k),
        None => Some(n),
    }
}

/// What is wrong with the name of a package that has to go by a set
/// name, if anything. A `Cargo.toml` without a package is let through.
pub open spec fn package_fault(expected: Seq<char>, name: Option<Seq<char>>) -> Option<Seq<char>> {
    match name {
        Some(n) => if n == expected {
            None
        } else {
            Some(
                expected + " package must be named '"@ + expected + "' but is named '"@ + n
                    + "'"@,
            )
        },
        None => None,
    }
}

/// The value of an optional text.
pub open spec fn name_view(name: Option<&str>) -> Option<Seq<char>> {
    match name {
        Some(n) => Some(n@),
        None => None,
    }
}

/// Checks that a package goes by the name it has to go by.
pub fn check_package(expected: &str, name: Option<&str>) -> (r: Result<(), String>)
    ensures
        match package_fault(expected@, name_view(name)) {
            Some(fault) => r matches Err(message) && message@ == fault,
            None => r is Ok,
        },
{
    match name {
        Some(n) => {
            if str_eq(n, expected) {
                Ok(())
            } else {
                let mut message = String::new();
                message.append(expected);
                message.append(" package must be named '");
                message.append(expected);
                message.append("' but is named '");
                message.append(n);
                message.append("'");
                assert(message@ =~= expected@ + " package must be named '"@ + expected@
                    + "' but is named '"@ + n@ + "'"@);
                Err(message)
            }
        },
        None => Ok(()),
    }
}

/// Checks the name of the service package: it is named `service`.
pub fn check_service_package(name: Option<&str>) -> (r: Result<(), String>)
    ensures
        match package_fault("service"@, name_view(name)) {
            Some(fault) => r matches Err(message) && message@ == fault,
            None => r is Ok,
        },
{
    check_package("service", name)
}

/// Checks the name of the schema package: it is named `schema`.
pub fn check_schema_package(name: Option<&str>) -> (r: Result<(), String>)
    ensures
        match package_fault("schema"@, name_view(name)) {
            Some(fault) => r matches Err(message) && message@ == fault,
            None => r is Ok,
        },
{
    check_package("schema", name)
}

} // verus!
