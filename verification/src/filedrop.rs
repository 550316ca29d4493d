//! File-drop analyzer: turns the paths of a dropped-file batch into
//! categorized entries.
//!
//! Each path is split into its file name (the part after the last path
//! separator) and its extension (the part after the last dot of the file
//! name, provided that dot is not the name's first character). The extension
//! is normalized to lowercase with a single leading dot and looked up in the
//! category tables, image table first, then spreadsheet, then code; a path
//! whose extension matches no table is silently excluded. All matched entries
//! of one batch are delivered together.
//!
//! Normalization folds ASCII letters only, deliberately: the tables hold
//! ASCII extensions, so a character-exact fold keeps matching fully
//! specified, and a character outside `A`–`Z` passes through unchanged
//! rather than going through locale-independent Unicode case mapping.

use vstd::prelude::*;
use vstd::string::{StrSliceExecFns, StringExecFns};

use crate::tables::{table_has, CategoryTables};

verus! {

/// Path separators: a dropped path may use either the backslash or the
/// forward slash.
pub open spec fn is_path_sep(c: char) -> bool {
    c == '/' || c == '\\'
}

/// The file name of a path: everything after the last path separator, or the
/// whole path when it has no separator.
pub open spec fn file_name_of(path: Seq<char>) -> Seq<char>
    decreases path.len(),
{
    if path.len() == 0 {
        path
    } else if is_path_sep(path.last()) {
        Seq::empty()
    } else {
        file_name_of(path.drop_last()).push(path.last())
    }
}

/// The raw extension of a file name: everything after the last dot, provided
/// that dot is not the first character of the name; nothing otherwise.
pub open spec fn raw_extension_of(name: Seq<char>) -> Option<Seq<char>>
    decreases name.len(),
{
    if name.len() == 0 {
        Option::None
    } else if name.last() == '.' {
        if name.len() >= 2 {
            Option::Some(Seq::empty())
        } else {
            Option::None
        }
    } else {
        match raw_extension_of(name.drop_last()) {
            Option::None => Option::None,
            Option::Some(e) => Option::Some(e.push(name.last())),
        }
    }
}

/// An uppercase ASCII letter mapped to its lowercase form; every other
/// character kept as it is. The fold is deliberately ASCII-only (see the
/// module notes): extensions are matched against ASCII tables, character by
/// character.
pub open spec fn lower_char(c: char) -> char {
    if 'A' <= c && c <= 'Z' {
        ((c as u8) + 32) as char
    } else {
        c
    }
}

/// A character sequence with each character lowered by [`lower_char`].
pub open spec fn lower_seq(s: Seq<char>) -> Seq<char> {
    s.map_values(|c: char| lower_char(c))
}

/// The normalized extension of a path: its raw extension lowered, behind a
/// single leading dot; nothing when the path has no extension.
pub open spec fn normalized_extension_of(path: Seq<char>) -> Option<Seq<char>> {
    match raw_extension_of(file_name_of(path)) {
        Option::None => Option::None,
        Option::Some(e) => Option::Some(seq!['.'] + lower_seq(e)),
    }
}

/// Exec form of [`lower_char`].
pub fn lower_char_exec(c: char) -> (r: char)
    ensures
        r == lower_char(c),
{
    if 'A' <= c && c <= 'Z' {
        (#[verifier::truncate] (c as u8) + 32) as char
    } else {
        c
    }
}

/// When positions `k..` of a path hold no separator and position `k - 1` (if
/// any) holds one, the file name is exactly the suffix from `k`.
pub proof fn lemma_file_name_suffix(path: Seq<char>, k: int)
    requires
        0 <= k <= path.len(),
        forall|j: int| k <= j < path.len() ==> !is_path_sep(#[trigger] path[j]),
        k > 0 ==> is_path_sep(path[k - 1]),
    ensures
        file_name_of(path) == path.subrange(k, path.len() as int),
    decreases path.len(),
{
    if path.len() == 0 {
        assert(file_name_of(path) =~= path.subrange(0, 0));
    } else if k == path.len() {
        assert(is_path_sep(path.last()));
        assert(file_name_of(path) =~= path.subrange(k, path.len() as int));
    } else {
        assert(!is_path_sep(path.last()));
        lemma_file_name_suffix(path.drop_last(), k);
        assert(file_name_of(path) =~= path.subrange(k, path.len() as int));
    }
}

/// When a file name has a dot at position `d > 0` and none after it, its raw
/// extension is exactly the suffix from `d + 1`.
pub proof fn lemma_raw_extension_suffix(name: Seq<char>, d: int)
    requires
        0 < d < name.len(),
        name[d] == '.',
        forall|j: int| d < j < name.len() ==> #[trigger] name[j] != '.',
    ensures
        raw_extension_of(name) == Option::Some(name.subrange(d + 1, name.len() as int)),
    decreases name.len(),
{
    if d == name.len() - 1 {
        assert(name.last() == '.');
        assert(raw_extension_of(name) =~= Option::Some(
            name.subrange(d + 1, name.len() as int),
        ));
    } else {
        assert(name.last() != '.');
        lemma_raw_extension_suffix(name.drop_last(), d);
        assert(name.subrange(d + 1, name.len() as int) =~= name.drop_last().subrange(
            d + 1,
            name.len() - 1,
        ).push(name.last()));
    }
}

/// When a file name has no dot after its first character, it has no raw
/// extension.
pub proof fn lemma_raw_extension_none(name: Seq<char>)
    requires
        forall|j: int| 1 <= j < name.len() ==> #[trigger] name[j] != '.',
    ensures
        raw_extension_of(name) is None,
    decreases name.len(),
{
    if name.len() >= 1 && name.last() != '.' {
        lemma_raw_extension_none(name.drop_last());
    }
}

/// A raw extension never holds a dot: it is what comes after the last one.
pub proof fn lemma_raw_extension_no_dot(name: Seq<char>)
    ensures
        raw_extension_of(name) matches Option::Some(e) ==> forall|j: int|
            0 <= j < e.len() ==> #[trigger] e[j] != '.',
    decreases name.len(),
{
    if name.len() > 0 && name.last() != '.' {
        lemma_raw_extension_no_dot(name.drop_last());
    }
}

/// Lowering a character never yields an uppercase ASCII letter, and never
/// turns a non-dot into a dot.
pub proof fn lemma_lower_char_shape(c: char)
    ensures
        !('A' <= lower_char(c) && lower_char(c) <= 'Z'),
        c != '.' ==> lower_char(c) != '.',
{
}

/// The category a drop-file extension falls under.
#[allow(non_camel_case_types)]
#[derive(Clone, Copy, PartialEq, Eq, Structural, Debug)]
pub enum FileType {
    IMAGE,
    CODE,
    EXCEL,
}

/// The category of a normalized extension: the first of the image,
/// spreadsheet and code tables, in that order, that holds it; none when no
/// table does.
pub open spec fn category_of_extension(tables: CategoryTables, ext: Seq<char>) -> Option<FileType> {
    if table_has(tables.image@, ext) {
        Option::Some(FileType::IMAGE)
    } else if table_has(tables.excel@, ext) {
        Option::Some(FileType::EXCEL)
    } else if table_has(tables.code@, ext) {
        Option::Some(FileType::CODE)
    } else {
        Option::None
    }
}

/// One categorized entry of a dropped-file batch.
#[derive(Debug)]
pub struct FileInfo {
    /// The file name: the part of the path after the last separator.
    pub name: String,
    /// The full dropped path.
    pub path: String,
    /// The category whose table matched the extension.
    pub file_type: FileType,
    /// The normalized extension: lowercase, with a single leading dot.
    pub extension: String,
    /// Display name of the process that owned the clipboard.
    pub pname: String,
    /// Id of the process that owned the clipboard.
    pub pid: u32,
}

/// The mathematical shadow of a [`FileInfo`]: each string as its character
/// sequence.
pub ghost struct FileInfoView {
    pub name: Seq<char>,
    pub path: Seq<char>,
    pub file_type: FileType,
    pub extension: Seq<char>,
    pub pname: Seq<char>,
    pub pid: u32,
}

impl View for FileInfo {
    type V = FileInfoView;

    open spec fn view(&self) -> FileInfoView {
        FileInfoView {
            name: self.name@,
            path: self.path@,
            file_type: self.file_type,
            extension: self.extension@,
            pname: self.pname@,
            pid: self.pid,
        }
    }
}

/// The entry a single dropped path contributes: its file name, full path,
/// normalized extension and category, tagged with the clipboard owner; none
/// when the path has no extension or the extension matches no table.
pub open spec fn entry_for(
    tables: CategoryTables,
    path: Seq<char>,
    pid: u32,
    pname: Seq<char>,
) -> Option<FileInfoView> {
    match normalized_extension_of(path) {
        Option::None => Option::None,
        Option::Some(ext) => match category_of_extension(tables, ext) {
            Option::None => Option::None,
            Option::Some(ft) => Option::Some(
                FileInfoView {
                    name: file_name_of(path),
                    path: path,
                    file_type: ft,
                    extension: ext,
                    pname: pname,
                    pid: pid,
                },
            ),
        },
    }
}

/// The entries a whole batch of dropped paths yields, in path order, paths
/// without a matching entry silently excluded.
pub open spec fn dropped_entries(
    tables: CategoryTables,
    paths: Seq<Seq<char>>,
    pid: u32,
    pname: Seq<char>,
) -> Seq<FileInfoView>
    decreases paths.len(),
{
    if paths.len() == 0 {
        Seq::empty()
    } else {
        let rest = dropped_entries(tables, paths.drop_last(), pid, pname);
        match entry_for(tables, paths.last(), pid, pname) {
            Option::None => rest,
            Option::Some(e) => rest.push(e),
        }
    }
}

/// Index after the last path separator: the file name starts here.
fn find_name_start(path: &str) -> (k: usize)
    ensures
        k <= path@.len(),
        forall|j: int| k <= j < path@.len() ==> !is_path_sep(#[trigger] path@[j]),
        k > 0 ==> is_path_sep(path@[k as int - 1]),
{
    let n = path.unicode_len();
    let mut k = n;
    while k > 0
        invariant
            k <= n,
            n == path@.len(),
            forall|j: int| k <= j < n ==> !is_path_sep(#[trigger] path@[j]),
        decreases k,
    {
        let c = path.get_char(k - 1);
        if c == '/' || c == '\\' {
            return k;
        }
        k = k - 1;
    }
    k
}

/// Index after the last dot of the file name that starts at `k`, provided
/// that dot is not the name's first character; nothing when the name has no
/// such dot.
fn find_ext_start(path: &str, k: usize) -> (r: Option<usize>)
    requires
        k <= path@.len(),
    ensures
        match r {
            Option::Some(s) => {
                &&& k as int + 1 <= s as int - 1 < path@.len()
                &&& path@[s as int - 1] == '.'
                &&& forall|j: int| s <= j < path@.len() ==> #[trigger] path@[j] != '.'
            },
            Option::None => forall|j: int|
                k + 1 <= j < path@.len() ==> #[trigger] path@[j] != '.',
        },
{
    let n = path.unicode_len();
    let mut m = n;
    while m > 0 && m - 1 > k
        invariant
            m <= n,
            n == path@.len(),
            forall|j: int| m <= j < n ==> #[trigger] path@[j] != '.',
        decreases m,
    {
        if path.get_char(m - 1) == '.' {
            return Option::Some(m);
        }
        m = m - 1;
    }
    Option::None
}

/// Whether `entry` is exactly the normalized form of the extension that
/// occupies positions `s..` of `path`: a leading dot followed by the
/// extension's characters, each lowered.
fn entry_matches(entry: &String, path: &str, s: usize) -> (r: bool)
    requires
        s <= path@.len(),
    ensures
        r == (entry@ == seq!['.'] + lower_seq(path@.subrange(s as int, path@.len() as int))),
{
    let ghost target: Seq<char> = seq!['.'] + lower_seq(
        path@.subrange(s as int, path@.len() as int),
    );
    let n = path.unicode_len();
    let m = entry.as_str().unicode_len();
    if m == 0 || m - 1 != n - s {
        assert(entry@.len() != target.len());
        return false;
    }
    if entry.as_str().get_char(0) != '.' {
        assert(entry@[0] != target[0]);
        return false;
    }
    let mut l: usize = 0;
    while l < n - s
        invariant
            l <= n - s <= n,
            n == path@.len(),
            m == entry@.len(),
            m - 1 == n - s,
            s <= n,
            entry@[0] == '.',
            target == seq!['.'] + lower_seq(path@.subrange(s as int, path@.len() as int)),
            forall|j: int| 0 <= j < l ==> #[trigger] entry@[j + 1] == target[j + 1],
        decreases n - s - l,
    {
        let c = path.get_char(s + l);
        let e = entry.as_str().get_char(1 + l);
        assert(target[l as int + 1] == lower_char(path@.subrange(s as int, n as int)[l as int]));
        if e != lower_char_exec(c) {
            assert(entry@[l as int + 1] != target[l as int + 1]);
            return false;
        }
        l = l + 1;
    }
    assert(target.len() == n - s + 1);
    assert forall|i: int| 0 <= i < entry@.len() implies entry@[i] == target[i] by {
        if i == 0 {
            assert(target[0] == '.');
        } else {
            assert(entry@[(i - 1) + 1] == target[(i - 1) + 1]);
        }
    }
    assert(entry@ =~= target);
    true
}

/// Look a normalized extension up in one table: the matched entry is handed
/// back so the caller can reuse its string.
fn find_in_table(table: &Vec<String>, path: &str, s: usize) -> (r: Option<String>)
    requires
        s <= path@.len(),
    ensures
        (r is Some) == table_has(
            table@,
            seq!['.'] + lower_seq(path@.subrange(s as int, path@.len() as int)),
        ),
        r matches Option::Some(e) ==> e@ == seq!['.'] + lower_seq(
            path@.subrange(s as int, path@.len() as int),
        ),
{
    let ghost target: Seq<char> = seq!['.'] + lower_seq(
        path@.subrange(s as int, path@.len() as int),
    );
    let mut i: usize = 0;
    while i < table.len()
        invariant
            i <= table@.len(),
            s <= path@.len(),
            target == seq!['.'] + lower_seq(path@.subrange(s as int, path@.len() as int)),
            forall|j: int| 0 <= j < i ==> #[trigger] table@[j]@ != target,
        decreases table@.len() - i,
    {
        let entry = &table[i];
        if entry_matches(entry, path, s) {
            assert(table@[i as int]@ == target);
            return Option::Some(entry.clone());
        }
        i = i + 1;
    }
    assert(!table_has(table@, target));
    Option::None
}

/// The views of a sequence of entries.
pub open spec fn views_of_entries(s: Seq<FileInfo>) -> Seq<FileInfoView> {
    s.map_values(|f: FileInfo| f@)
}

/// The views of a sequence of path strings.
pub open spec fn views_of_paths(s: Seq<String>) -> Seq<Seq<char>> {
    s.map_values(|p: String| p@)
}

/// Analyze one dropped path: the entry it contributes, or nothing when its
/// extension is missing or matches no table.
pub fn classify_path(tables: &CategoryTables, path: &String, pid: u32, pname: &String) -> (r:
    Option<FileInfo>)
    ensures
        match r {
            Option::None => entry_for(*tables, path@, pid, pname@) is None,
            Option::Some(f) => Option::Some(f@) == entry_for(*tables, path@, pid, pname@),
        },
{
    let k = find_name_start(path.as_str());
    let n = path.as_str().unicode_len();
    proof {
        lemma_file_name_suffix(path@, k as int);
    }
    let ghost name: Seq<char> = path@.subrange(k as int, n as int);
    match find_ext_start(path.as_str(), k) {
        Option::None => {
            proof {
                assert forall|j: int| 1 <= j < name.len() implies name[j] != '.' by {
                    assert(path@[k + j] != '.');
                }
                lemma_raw_extension_none(name);
            }
            Option::None
        },
        Option::Some(s) => {
            proof {
                let d = s - 1 - k;
                assert(name[d] == path@[s as int - 1]);
                assert forall|j: int| d < j < name.len() implies name[j] != '.' by {
                    assert(path@[k + j] != '.');
                }
                lemma_raw_extension_suffix(name, d);
                assert(name.subrange(d + 1, name.len() as int) =~= path@.subrange(
                    s as int,
                    n as int,
                ));
            }
            if let Option::Some(e) = find_in_table(&tables.image, path.as_str(), s) {
                Option::Some(
                    FileInfo {
                        name: String::from_str(path.as_str().substring_char(k, n)),
                        path: path.clone(),
                        file_type: FileType::IMAGE,
                        extension: e,
                        pname: pname.clone(),
                        pid,
                    },
                )
            } else if let Option::Some(e) = find_in_table(&tables.excel, path.as_str(), s) {
                Option::Some(
                    FileInfo {
                        name: String::from_str(path.as_str().substring_char(k, n)),
                        path: path.clone(),
                        file_type: FileType::EXCEL,
                        extension: e,
                        pname: pname.clone(),
                        pid,
                    },
                )
            } else if let Option::Some(e) = find_in_table(&tables.code, path.as_str(), s) {
                Option::Some(
                    FileInfo {
                        name: String::from_str(path.as_str().substring_char(k, n)),
                        path: path.clone(),
                        file_type: FileType::CODE,
                        extension: e,
                        pname: pname.clone(),
                        pid,
                    },
                )
            } else {
                Option::None
            }
        },
    }
}

/// Analyze a whole dropped-file batch: the categorized entries of its paths,
/// in order, with the clipboard owner stamped on each. Paths without an
/// extension, and paths whose extension matches no table, contribute
/// nothing.
pub fn check_dropped_files(
    tables: &CategoryTables,
    paths: &Vec<String>,
    pid: u32,
    pname: &String,
) -> (entries: Vec<FileInfo>)
    ensures
        views_of_entries(entries@) == dropped_entries(*tables, views_of_paths(paths@), pid, pname@),
{
    let ghost pv: Seq<Seq<char>> = views_of_paths(paths@);
    let mut entries: Vec<FileInfo> = Vec::new();
    let mut i: usize = 0;
    while i < paths.len()
        invariant
            i <= paths@.len(),
            pv == views_of_paths(paths@),
            views_of_entries(entries@) == dropped_entries(
                *tables,
                pv.subrange(0, i as int),
                pid,
                pname@,
            ),
        decreases paths@.len() - i,
    {
        let ghost prefix = pv.subrange(0, i as int);
        let ghost em = views_of_entries(entries@);
        let r = classify_path(tables, &paths[i], pid, pname);
        proof {
            assert(pv.subrange(0, i + 1).drop_last() =~= prefix);
            assert(pv.subrange(0, i + 1).last() == paths@[i as int]@);
        }
        match r {
            Option::Some(f) => {
                entries.push(f);
                proof {
                    assert(views_of_entries(entries@) =~= em.push(f@));
                }
            },
            Option::None => {},
        }
        i = i + 1;
    }
    proof {
        assert(pv.subrange(0, pv.len() as int) =~= pv);
    }
    entries
}

/// A normalized extension: a single leading dot, no other dot, and no
/// uppercase ASCII letter after it.
pub open spec fn is_normalized_ext(ext: Seq<char>) -> bool {
    &&& ext.len() >= 1
    &&& ext[0] == '.'
    &&& forall|j: int|
        1 <= j < ext.len() ==> #[trigger] ext[j] != '.' && !('A' <= ext[j] && ext[j] <= 'Z')
}

/// Every entry a single path contributes has a normalized extension that is
/// a member of exactly the table that determined its category, the tables
/// checked image first, then spreadsheet, then code.
pub proof fn lemma_entry_shape(tables: CategoryTables, path: Seq<char>, pid: u32, pname: Seq<char>)
    ensures
        entry_for(tables, path, pid, pname) matches Option::Some(e) ==> {
            &&& is_normalized_ext(e.extension)
            &&& category_of_extension(tables, e.extension) == Option::Some(e.file_type)
            &&& (e.file_type == FileType::IMAGE ==> table_has(tables.image@, e.extension))
            &&& (e.file_type == FileType::EXCEL ==> !table_has(tables.image@, e.extension)
                && table_has(tables.excel@, e.extension))
            &&& (e.file_type == FileType::CODE ==> !table_has(tables.image@, e.extension)
                && !table_has(tables.excel@, e.extension) && table_has(tables.code@, e.extension))
        },
{
    let name = file_name_of(path);
    lemma_raw_extension_no_dot(name);
    match raw_extension_of(name) {
        Option::Some(raw) => {
            let ext = seq!['.'] + lower_seq(raw);
            assert forall|j: int|
                1 <= j < ext.len() implies ext[j] != '.' && !('A' <= ext[j] && ext[j]
                <= 'Z') by {
                assert(ext[j] == lower_seq(raw)[j - 1]);
                assert(lower_seq(raw)[j - 1] == lower_char(raw[j - 1]));
                assert(raw[j - 1] != '.');
                lemma_lower_char_shape(raw[j - 1]);
            }
        },
        Option::None => {},
    }
}

/// For all dropped-path batches, every delivered entry carries a lowercase,
/// single-leading-dot extension that is a member of exactly the table that
/// determined its category, and every delivered entry arises from one of the
/// batch's paths; a path whose extension matches no table contributes no
/// entry.
pub proof fn lemma_dropped_entries_normalized(
    tables: CategoryTables,
    paths: Seq<Seq<char>>,
    pid: u32,
    pname: Seq<char>,
)
    ensures
        forall|i: int|
            0 <= i < dropped_entries(tables, paths, pid, pname).len() ==> {
                let e = #[trigger] dropped_entries(tables, paths, pid, pname)[i];
                &&& is_normalized_ext(e.extension)
                &&& category_of_extension(tables, e.extension) == Option::Some(e.file_type)
                &&& (e.file_type == FileType::IMAGE ==> table_has(tables.image@, e.extension))
                &&& (e.file_type == FileType::EXCEL ==> !table_has(tables.image@, e.extension)
                    && table_has(tables.excel@, e.extension))
                &&& (e.file_type == FileType::CODE ==> !table_has(tables.image@, e.extension)
                    && !table_has(tables.excel@, e.extension) && table_has(
                    tables.code@,
                    e.extension,
                ))
                &&& exists|j: int|
                    0 <= j < paths.len() && Option::Some(e) == entry_for(
                        tables,
                        #[trigger] paths[j],
                        pid,
                        pname,
                    )
            },
    decreases paths.len(),
{
    if paths.len() > 0 {
        lemma_dropped_entries_normalized(tables, paths.drop_last(), pid, pname);
        lemma_entry_shape(tables, paths.last(), pid, pname);
        let whole = dropped_entries(tables, paths, pid, pname);
        let rest = dropped_entries(tables, paths.drop_last(), pid, pname);
        assert forall|i: int| 0 <= i < whole.len() implies {
            let e = #[trigger] whole[i];
            &&& is_normalized_ext(e.extension)
            &&& category_of_extension(tables, e.extension) == Option::Some(e.file_type)
            &&& (e.file_type == FileType::IMAGE ==> table_has(tables.image@, e.extension))
            &&& (e.file_type == FileType::EXCEL ==> !table_has(tables.image@, e.extension)
                && table_has(tables.excel@, e.extension))
            &&& (e.file_type == FileType::CODE ==> !table_has(tables.image@, e.extension)
                && !table_has(tables.excel@, e.extension) && table_has(tables.code@, e.extension))
            &&& exists|j: int|
                0 <= j < paths.len() && Option::Some(e) == entry_for(
                    tables,
                    #[trigger] paths[j],
                    pid,
                    pname,
                )
        } by {
            if i < rest.len() {
                assert(whole[i] == rest[i]);
                let j0 = choose|j: int|
                    0 <= j < paths.drop_last().len() && Option::Some(rest[i]) == entry_for(
                        tables,
                        #[trigger] paths.drop_last()[j],
                        pid,
                        pname,
                    );
                assert(paths[j0] == paths.drop_last()[j0]);
            } else {
                assert(Option::Some(whole[i]) == entry_for(
                    tables,
                    paths[paths.len() - 1],
                    pid,
                    pname,
                ));
            }
        }
    }
}

} // verus!
