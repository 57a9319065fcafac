use vstd::prelude::*;

use crate::error::{MigError, MigErrorKind};
use crate::number::{parse_u32, spec_parse_u32};
use crate::pattern::{captures, regex_groups};
use crate::text::{lines_of, strings_view, text_lines, text_words, words_of};

verus! {

/// A separator word made of dashes under a table heading.
pub const DASHES_RE: &'static str = "^-+$";

/// What is known of the PowerShell of the machine: its version, once read,
/// and the names of its cmdlets, each once.
#[derive(Clone, Debug)]
pub struct PSInfo {
    pub ps_ver: Option<(u32, u32)>,
    pub ps_cmdlets: Vec<String>,
}

/// The version from the words of the heading and value lines of a version
/// table, reading `Major` and `Minor` columns from position `idx` up to the
/// first other column.
pub open spec fn version_from(
    headers: Seq<Seq<char>>,
    values: Seq<Seq<char>>,
    idx: int,
    major: u32,
    minor: u32,
) -> Option<(u32, u32)>
    decreases headers.len() - idx,
{
    if idx < 0 || idx >= headers.len() {
        Some((major, minor))
    } else if headers[idx] == "Major"@ || headers[idx] == "Minor"@ {
        if idx >= values.len() {
            None
        } else {
            match spec_parse_u32(values[idx]) {
                None => None,
                Some(v) => if headers[idx] == "Major"@ {
                    version_from(headers, values, idx + 1, v, minor)
                } else {
                    version_from(headers, values, idx + 1, major, v)
                },
            }
        }
    } else {
        Some((major, minor))
    }
}

/// The words of each line of `out`.
pub open spec fn table_words(out: Seq<char>) -> Seq<Seq<Seq<char>>> {
    text_lines(out).map_values(|l: Seq<char>| text_words(l))
}

/// The version that a `$PSVersionTable.PSVersion` table gives, from the words
/// of its lines: 1.0 for no lines, else a heading line, a separator line and
/// a value line.
pub open spec fn spec_version_table(rows: Seq<Seq<Seq<char>>>) -> Option<(u32, u32)> {
    if rows.len() == 0 {
        Some((1, 0))
    } else if rows.len() != 3 {
        None
    } else {
        version_from(rows[0], rows[2], 0, 1, 0)
    }
}

/// The version that `$PSVersionTable.PSVersion` printed.
pub open spec fn spec_ps_ver(out: Seq<char>) -> Option<(u32, u32)> {
    spec_version_table(table_words(out))
}

/// The position of the first word `t` in `ws` from position `i` on.
pub open spec fn find_word(ws: Seq<Seq<char>>, t: Seq<char>, i: int) -> Option<int>
    decreases ws.len() - i,
{
    if i < 0 || i >= ws.len() {
        None
    } else if ws[i] == t {
        Some(i)
    } else {
        find_word(ws, t, i + 1)
    }
}

/// The words at column `col` of the rows from position `k` on; none when a
/// row has no such column.
pub open spec fn column_from(rows: Seq<Seq<Seq<char>>>, col: int, k: int) -> Option<Seq<Seq<char>>>
    decreases rows.len() - k,
{
    if k < 0 || k >= rows.len() {
        Some(Seq::empty())
    } else if col >= rows[k].len() {
        None
    } else {
        match column_from(rows, col, k + 1) {
            Some(rest) => Some(seq![rows[k][col]] + rest),
            None => None,
        }
    }
}

/// The `Name` column of a table given as the words of its lines, the first
/// line being the heading; none without lines, without a `Name` heading, or
/// with a line that has no name.
pub open spec fn spec_name_column(rows: Seq<Seq<Seq<char>>>) -> Option<Seq<Seq<char>>> {
    if rows.len() == 0 {
        None
    } else {
        match find_word(rows[0], "Name"@, 0) {
            None => None,
            Some(col) => column_from(rows, col, 1),
        }
    }
}

pub open spec fn is_dashes(w: Seq<char>) -> bool {
    regex_groups(DASHES_RE@, w) is Some
}

/// The cmdlet names in `Get-Command` output: the `Name` column, without the
/// line of dashes that may stand under the heading.
pub open spec fn spec_cmdlet_names(out: Seq<char>) -> Option<Seq<Seq<char>>> {
    match spec_name_column(table_words(out)) {
        None => None,
        Some(names) => if names.len() > 0 && is_dashes(names[0]) {
            Some(names.drop_first())
        } else {
            Some(names)
        },
    }
}

/// The names `s` with `names` added in order, each name once.
pub open spec fn add_all(s: Seq<Seq<char>>, names: Seq<Seq<char>>) -> Seq<Seq<char>>
    decreases names.len(),
{
    if names.len() == 0 {
        s
    } else {
        let s1 = add_all(s, names.drop_last());
        if s1.contains(names.last()) {
            s1
        } else {
            s1.push(names.last())
        }
    }
}

fn contains_name(v: &Vec<String>, name: &String) -> (r: bool)
    ensures
        r == strings_view(v@).contains(name@),
{
    let n = v.len();
    let mut i: usize = 0;
    while i < n
        invariant
            n == v@.len(),
            i <= n,
            forall|j: int| 0 <= j < i ==> strings_view(v@)[j] != name@,
        decreases n - i,
    {
        if v[i] == *name {
            assert(strings_view(v@)[i as int] == name@);
            return true;
        }
        i = i + 1;
    }
    false
}

impl PSInfo {
    pub fn new() -> (r: PSInfo)
        ensures
            r.ps_ver is None,
            r.ps_cmdlets@.len() == 0,
    {
        PSInfo { ps_ver: None, ps_cmdlets: Vec::new() }
    }

    /// Reads what PowerShell reported: the output of `Get-Command -CommandType
    /// Cmdlet`, then that of `$PSVersionTable.PSVersion`.
    pub fn try_init(cmdlets_out: &str, version_out: &str) -> (r: Result<PSInfo, MigError>)
        ensures
            r is Ok <==> spec_cmdlet_names(cmdlets_out@) is Some && spec_ps_ver(version_out@) is Some,
            r matches Ok(info) ==> info.ps_ver == spec_ps_ver(version_out@) && strings_view(
                info.ps_cmdlets@,
            ) == add_all(Seq::empty(), spec_cmdlet_names(cmdlets_out@)->Some_0),
            r matches Err(e) ==> e.kind == MigErrorKind::InvParam,
    {
        let mut ps_info = PSInfo::new();
        assert(strings_view(ps_info.ps_cmdlets@) =~= Seq::empty());
        match ps_info.get_cmdlets(cmdlets_out) {
            Ok(_) => {},
            Err(why) => {
                return Err(why);
            },
        }
        match ps_info.get_ps_ver(version_out) {
            Ok(_) => {},
            Err(why) => {
                return Err(why);
            },
        }
        Ok(ps_info)
    }

    /// Whether `cmd` is one of the cmdlets.
    pub fn has_command(&self, cmd: &str) -> (r: bool)
        ensures
            r == strings_view(self.ps_cmdlets@).contains(cmd@),
    {
        contains_name(&self.ps_cmdlets, &cmd.to_owned())
    }

    /// The version that a `$PSVersionTable.PSVersion` table gives, from the
    /// words of its lines; a malformed table is `InvParam`.
    pub fn version_from_table(rows: &Vec<Vec<String>>) -> (r: Result<(u32, u32), MigError>)
        ensures
            match spec_version_table(rows_view(rows@)) {
                Some(v) => r == Ok::<(u32, u32), MigError>(v),
                None => r matches Err(e) && e.kind == MigErrorKind::InvParam,
            },
    {
        let ghost rs = rows_view(rows@);
        if rows.len() == 0 {
            return Ok((1, 0));
        }
        if rows.len() != 3 {
            return Err(
                MigError::from_remark(
                    MigErrorKind::InvParam,
                    "unexpected number of output lines in powershell version output",
                ),
            );
        }
        let headers = &rows[0];
        let values = &rows[2];
        let ghost hs = strings_view(headers@);
        let ghost vs = strings_view(values@);
        assert(rs[0] == hs && rs[2] == vs);
        let mut major: u32 = 1;
        let mut minor: u32 = 0;
        let n = headers.len();
        let mut idx: usize = 0;
        proof {
            reveal_strlit("Major");
            reveal_strlit("Minor");
        }
        while idx < n
            invariant_except_break
                n == headers@.len(),
                hs == strings_view(headers@),
                vs == strings_view(values@),
                idx <= n,
                version_from(hs, vs, idx as int, major, minor) == version_from(hs, vs, 0, 1, 0),
                spec_version_table(rs) == version_from(hs, vs, 0, 1, 0),
                rs == rows_view(rows@),
            ensures
                version_from(hs, vs, 0, 1, 0) == Some((major, minor)),
            decreases n - idx,
        {
            let hdr = headers[idx].as_str();
            assert(hs[idx as int] == hdr@);
            let is_major = hdr.to_owned() == "Major".to_owned();
            let is_minor = hdr.to_owned() == "Minor".to_owned();
            if !is_major && !is_minor {
                break;
            }
            if idx >= values.len() {
                return Err(MigError::from_remark(MigErrorKind::InvParam, "missing powershell version value"));
            }
            assert(vs[idx as int] == values@[idx as int]@);
            let v = match parse_u32(values[idx].as_str()) {
                Some(v) => v,
                None => {
                    return Err(MigError::from_remark(MigErrorKind::InvParam, "invalid powershell version value"));
                },
            };
            if is_major {
                major = v;
            } else {
                minor = v;
            }
            idx = idx + 1;
        }
        Ok((major, minor))
    }

    /// The PowerShell version: the one read before, or the one that the
    /// version output `out` gives. A malformed table is `InvParam`.
    pub fn get_ps_ver(&mut self, out: &str) -> (r: Result<(u32, u32), MigError>)
        ensures
            final(self).ps_cmdlets == old(self).ps_cmdlets,
            old(self).ps_ver matches Some(v) ==> r == Ok::<(u32, u32), MigError>(v)
                && final(self).ps_ver == old(self).ps_ver,
            old(self).ps_ver is None ==> match spec_ps_ver(out@) {
                Some(v) => r == Ok::<(u32, u32), MigError>(v) && final(self).ps_ver == Some(v),
                None => (r matches Err(e) && e.kind == MigErrorKind::InvParam) && final(self).ps_ver
                    is None,
            },
    {
        match self.ps_ver {
            Some(v) => {
                return Ok(v);
            },
            None => {},
        }
        let rows = table_of(out);
        let v = PSInfo::version_from_table(&rows)?;
        self.ps_ver = Some(v);
        Ok(v)
    }

    /// The `Name` column of a table given as the words of its lines.
    pub fn name_column(rows: &Vec<Vec<String>>) -> (r: Option<Vec<String>>)
        ensures
            match r {
                Some(v) => spec_name_column(rows_view(rows@)) == Some(strings_view(v@)),
                None => spec_name_column(rows_view(rows@)) is None,
            },
    {
        let ghost rs = rows_view(rows@);
        if rows.len() == 0 {
            return None;
        }
        let headers = &rows[0];
        let ghost hs = strings_view(headers@);
        assert(rs[0] == hs);
        let n = headers.len();
        let mut col: usize = 0;
        proof {
            reveal_strlit("Name");
        }
        while col < n
            invariant_except_break
                n == headers@.len(),
                hs == strings_view(headers@),
                col <= n,
                find_word(hs, "Name"@, col as int) == find_word(hs, "Name"@, 0),
            ensures
                col <= n,
                col == n ==> find_word(hs, "Name"@, 0) is None,
                col < n ==> find_word(hs, "Name"@, 0) == Some(col as int),
            decreases n - col,
        {
            assert(hs[col as int] == headers@[col as int]@);
            if headers[col].as_str().to_owned() == "Name".to_owned() {
                break;
            }
            col = col + 1;
        }
        if col == n {
            return None;
        }
        column_words(rows, col, 1)
    }

    /// Adds the names not yet known, in order, and returns how many were new.
    pub fn add_cmdlets(&mut self, names: &Vec<String>) -> (r: usize)
        ensures
            final(self).ps_ver == old(self).ps_ver,
            strings_view(final(self).ps_cmdlets@) == add_all(
                strings_view(old(self).ps_cmdlets@),
                strings_view(names@),
            ),
            r == final(self).ps_cmdlets@.len() - old(self).ps_cmdlets@.len(),
    {
        let ghost old_view = strings_view(self.ps_cmdlets@);
        let ghost nv = strings_view(names@);
        let n = names.len();
        let old_len = self.ps_cmdlets.len();
        let mut i: usize = 0;
        assert(nv.take(0) =~= Seq::<Seq<char>>::empty());
        while i < n
            invariant
                n == names@.len(),
                nv == strings_view(names@),
                i <= n,
                strings_view(self.ps_cmdlets@) == add_all(old_view, nv.take(i as int)),
                self.ps_cmdlets@.len() >= old_len,
                old_len == old_view.len(),
                self.ps_ver == old(self).ps_ver,
            decreases n - i,
        {
            proof {
                assert(nv.take(i + 1).drop_last() =~= nv.take(i as int));
                assert(nv.take(i + 1).last() == names@[i as int]@);
            }
            let name = names[i].clone();
            if !contains_name(&self.ps_cmdlets, &name) {
                let ghost before = self.ps_cmdlets@;
                self.ps_cmdlets.push(name);
                assert(strings_view(self.ps_cmdlets@) =~= strings_view(before).push(names@[i as int]@));
            }
            i = i + 1;
        }
        assert(nv.take(n as int) =~= nv);
        self.ps_cmdlets.len() - old_len
    }

    /// Adds the cmdlets that the `Get-Command` output `out` lists and returns
    /// how many were new. Output without lines, without a `Name` heading, or
    /// with a line that has no name is `InvParam`, and adds nothing.
    pub fn get_cmdlets(&mut self, out: &str) -> (r: Result<usize, MigError>)
        ensures
            final(self).ps_ver == old(self).ps_ver,
            match spec_cmdlet_names(out@) {
                Some(names) => r is Ok && strings_view(final(self).ps_cmdlets@) == add_all(
                    strings_view(old(self).ps_cmdlets@),
                    names,
                ) && r->Ok_0 == final(self).ps_cmdlets@.len() - old(self).ps_cmdlets@.len(),
                None => (r matches Err(e) && e.kind == MigErrorKind::InvParam) && final(self).ps_cmdlets
                    == old(self).ps_cmdlets,
            },
    {
        let rows = table_of(out);
        let mut names = match PSInfo::name_column(&rows) {
            Some(names) => names,
            None => {
                return Err(
                    MigError::from_remark(
                        MigErrorKind::InvParam,
                        "unexpected output from powershell Get-Command",
                    ),
                );
            },
        };
        if names.len() > 0 {
            let first_dashes = match captures(DASHES_RE, names[0].as_str()) {
                Some(_) => true,
                None => false,
            };
            if first_dashes {
                let ghost before = strings_view(names@);
                assert(before[0] == names@[0]@);
                names.remove(0);
                assert(strings_view(names@) =~= before.drop_first());
            }
        }
        Ok(self.add_cmdlets(&names))
    }
}

pub open spec fn rows_view(rows: Seq<Vec<String>>) -> Seq<Seq<Seq<char>>> {
    rows.map_values(|r: Vec<String>| strings_view(r@))
}

/// The words of each line of `out`.
fn table_of(out: &str) -> (r: Vec<Vec<String>>)
    ensures
        rows_view(r@) == table_words(out@),
{
    let lines = lines_of(out);
    let ghost ls = table_words(out@);
    let n = lines.len();
    let mut rows: Vec<Vec<String>> = Vec::new();
    let mut i: usize = 0;
    while i < n
        invariant
            n == lines@.len(),
            strings_view(lines@) == text_lines(out@),
            ls == table_words(out@),
            i <= n,
            rows_view(rows@) == ls.take(i as int),
        decreases n - i,
    {
        assert(ls[i as int] == text_words(lines@[i as int]@));
        let ghost before = rows@;
        rows.push(words_of(lines[i].as_str()));
        assert(rows_view(rows@) =~= rows_view(before).push(ls[i as int]));
        assert(ls.take(i + 1) =~= ls.take(i as int).push(ls[i as int]));
        i = i + 1;
    }
    assert(ls.take(n as int) =~= ls);
    rows
}

/// The names at column `col` of the rows from position `k` on.
fn column_words(rows: &Vec<Vec<String>>, col: usize, k: usize) -> (r: Option<Vec<String>>)
    requires
        k <= rows@.len(),
    ensures
        match r {
            Some(v) => column_from(rows_view(rows@), col as int, k as int) == Some(strings_view(v@)),
            None => column_from(rows_view(rows@), col as int, k as int) is None,
        },
    decreases rows@.len() - k,
{
    let ghost rs = rows_view(rows@);
    if k >= rows.len() {
        let v: Vec<String> = Vec::new();
        assert(strings_view(v@) =~= Seq::empty());
        return Some(v);
    }
    let words = &rows[k];
    assert(rs[k as int] == strings_view(words@));
    if col >= words.len() {
        return None;
    }
    let rest = match column_words(rows, col, k + 1) {
        Some(rest) => rest,
        None => {
            return None;
        },
    };
    let mut v: Vec<String> = Vec::new();
    v.push(words[col].clone());
    let mut j: usize = 0;
    let m = rest.len();
    while j < m
        invariant
            m == rest@.len(),
            j <= m,
            col < words@.len(),
            strings_view(v@) == seq![strings_view(words@)[col as int]] + strings_view(rest@).take(j as int),
        decreases m - j,
    {
        let ghost before = v@;
        v.push(rest[j].clone());
        assert(strings_view(v@) =~= strings_view(before).push(rest@[j as int]@));
        assert(strings_view(rest@).take(j + 1) =~= strings_view(rest@).take(j as int).push(rest@[j as int]@));
        assert(strings_view(v@) =~= seq![strings_view(words@)[col as int]] + strings_view(rest@).take(j + 1));
        j = j + 1;
    }
    assert(strings_view(rest@).take(m as int) =~= strings_view(rest@));
    Some(v)
}

} // verus!
