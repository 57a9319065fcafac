use vstd::prelude::*;

use crate::error::{MigError, MigErrorKind};
use crate::text::{trim_char, trim_matches_char};

verus! {

/// A mounted volume of a Windows system: the directory it is mounted on and
/// the device id of the volume.
#[derive(Clone, Debug)]
pub struct MountPoint {
    pub directory: String,
    pub volume: String,
}

/// The only `=` of `prop` stands at position `i`.
pub open spec fn single_eq_at(prop: Seq<char>, i: int) -> bool {
    &&& 0 <= i < prop.len()
    &&& prop[i] == '='
    &&& forall|j: int| 0 <= j < prop.len() && j != i ==> prop[j] != '='
}

/// The value of a WMI reference property `Class.Key=value`, when it holds
/// exactly one `=`.
pub open spec fn reference_value(prop: Seq<char>) -> Option<Seq<char>> {
    if exists|i: int| single_eq_at(prop, i) {
        let i = choose|i: int| single_eq_at(prop, i);
        Some(prop.subrange(i + 1, prop.len() as int))
    } else {
        None
    }
}

/// `s` with each pair of backslashes, read from left to right, made one.
pub open spec fn halve_backslashes(s: Seq<char>) -> Seq<char>
    decreases s.len(),
{
    if s.len() == 0 {
        s
    } else if s.len() >= 2 && s[0] == '\\' && s[1] == '\\' {
        seq!['\\'] + halve_backslashes(s.subrange(2, s.len() as int))
    } else {
        seq![s[0]] + halve_backslashes(s.drop_first())
    }
}

/// The directory that a `Directory` property names: its quoted value with
/// doubled backslashes made single.
pub open spec fn directory_of(prop: Seq<char>) -> Option<Seq<char>> {
    match reference_value(prop) {
        Some(v) => Some(halve_backslashes(trim_char(v, '"'))),
        None => None,
    }
}

fn reference_value_of(prop: &str) -> (r: Option<String>)
    ensures
        match r {
            Some(v) => reference_value(prop@) == Some(v@),
            None => reference_value(prop@) is None,
        },
{
    let n = prop.unicode_len();
    let mut i: usize = 0;
    while i < n && prop.get_char(i) != '='
        invariant
            n == prop@.len(),
            i <= n,
            forall|j: int| 0 <= j < i ==> prop@[j] != '=',
        decreases n - i,
    {
        i = i + 1;
    }
    if i == n {
        assert(!exists|k: int| single_eq_at(prop@, k));
        return None;
    }
    let mut j: usize = i + 1;
    while j < n
        invariant
            n == prop@.len(),
            i < j <= n,
            prop@[i as int] == '=',
            forall|k: int| 0 <= k < i ==> prop@[k] != '=',
            forall|k: int| i < k < j ==> prop@[k] != '=',
        decreases n - j,
    {
        if prop.get_char(j) == '=' {
            assert forall|k: int| !single_eq_at(prop@, k) by {
                if single_eq_at(prop@, k) {
                    assert(k == i || prop@[i as int] != '=');
                    assert(prop@[j as int] != '=');
                }
            }
            return None;
        }
        j = j + 1;
    }
    assert(single_eq_at(prop@, i as int));
    assert forall|k: int| single_eq_at(prop@, k) implies k == i by {
        if k != i {
            assert(prop@[i as int] != '=');
        }
    }
    Some(prop.substring_char(i + 1, n).to_owned())
}

fn halve_backslashes_of(s: &str) -> (r: String)
    ensures
        r@ == halve_backslashes(s@),
{
    let n = s.unicode_len();
    let mut out = String::new();
    let mut i: usize = 0;
    proof {
        reveal_strlit("\\");
        assert(s@.subrange(0, n as int) =~= s@);
    }
    while i < n
        invariant
            n == s@.len(),
            i <= n,
            out@ + halve_backslashes(s@.subrange(i as int, n as int)) == halve_backslashes(s@),
        decreases n - i,
    {
        let ghost rest = s@.subrange(i as int, n as int);
        if i + 1 < n && s.get_char(i) == '\\' && s.get_char(i + 1) == '\\' {
            assert(rest.subrange(2, rest.len() as int) =~= s@.subrange(i + 2, n as int));
            assert(halve_backslashes(rest) == seq!['\\'] + halve_backslashes(s@.subrange(i + 2, n as int)));
            let ghost before = out@;
            proof {
                reveal_strlit("\\");
            }
            out.append("\\");
            assert(out@ =~= before + seq!['\\']);
            assert(out@ + halve_backslashes(s@.subrange(i + 2, n as int)) =~= before + halve_backslashes(rest));
            i = i + 2;
        } else {
            assert(rest.drop_first() =~= s@.subrange(i + 1, n as int));
            let c = s.substring_char(i, i + 1);
            assert(c@ =~= seq![rest[0]]);
            assert(halve_backslashes(rest) == seq![rest[0]] + halve_backslashes(s@.subrange(i + 1, n as int)));
            let ghost before = out@;
            out.append(c);
            assert(out@ + halve_backslashes(s@.subrange(i + 1, n as int)) =~= before + halve_backslashes(rest));
            i = i + 1;
        }
    }
    assert(s@.subrange(n as int, n as int) =~= Seq::<char>::empty());
    assert(out@ =~= out@ + halve_backslashes(s@.subrange(n as int, n as int)));
    out
}

impl MountPoint {
    /// Reads a mount point from the `Directory` and `Volume` properties of
    /// a `Win32_MountPoint` record; a property that is not a reference with
    /// one `=` is `InvParam`.
    pub fn from_query(directory_prop: &str, volume_prop: &str) -> (r: Result<MountPoint, MigError>)
        ensures
            r is Ok <==> directory_of(directory_prop@) is Some && reference_value(volume_prop@) is Some,
            r matches Ok(m) ==> directory_of(directory_prop@) == Some(m.directory@)
                && reference_value(volume_prop@) == Some(m.volume@),
            r matches Err(e) ==> e.kind == MigErrorKind::InvParam,
    {
        let dir = match reference_value_of(directory_prop) {
            Some(v) => v,
            None => {
                return Err(MigError::from_remark(MigErrorKind::InvParam, "Failed to extract Directory"));
            },
        };
        let directory = halve_backslashes_of(trim_matches_char(dir.as_str(), '"').as_str());
        let volume = match reference_value_of(volume_prop) {
            Some(v) => v,
            None => {
                return Err(MigError::from_remark(MigErrorKind::InvParam, "Failed to extract Volume"));
            },
        };
        Ok(MountPoint { directory, volume })
    }

    pub fn get_directory(&self) -> (r: &String)
        ensures
            r == &self.directory,
    {
        &self.directory
    }

    pub fn get_volume(&self) -> (r: &String)
        ensures
            r == &self.volume,
    {
        &self.volume
    }
}

} // verus!
