//! Category extension tables: the three sets of normalized file extensions
//! (image, spreadsheet, code) that the file-drop analyzer matches against.
//!
//! Each entry is lowercase with a single leading dot. The tables are built
//! once at startup and treated as immutable for the life of the process.

use vstd::prelude::*;

verus! {

/// Whether `table` holds an entry whose characters are exactly `ext`.
pub open spec fn table_has(table: Seq<String>, ext: Seq<char>) -> bool {
    exists|i: int| 0 <= i < table.len() && table[i]@ == ext
}

/// The default code-file table: the sixteen extensions below, in this order.
pub open spec fn default_code_table(s: Seq<String>) -> bool {
    &&& s.len() == 16
    &&& s[0]@ == ".cpp"@
    &&& s[1]@ == ".h"@
    &&& s[2]@ == ".hpp"@
    &&& s[3]@ == ".c"@
    &&& s[4]@ == ".cs"@
    &&& s[5]@ == ".py"@
    &&& s[6]@ == ".java"@
    &&& s[7]@ == ".js"@
    &&& s[8]@ == ".ts"@
    &&& s[9]@ == ".html"@
    &&& s[10]@ == ".css"@
    &&& s[11]@ == ".json"@
    &&& s[12]@ == ".xml"@
    &&& s[13]@ == ".sql"@
    &&& s[14]@ == ".go"@
    &&& s[15]@ == ".rs"@
}

/// The default image-file table: the eight extensions below, in this order.
pub open spec fn default_image_table(s: Seq<String>) -> bool {
    &&& s.len() == 8
    &&& s[0]@ == ".jpg"@
    &&& s[1]@ == ".jpeg"@
    &&& s[2]@ == ".png"@
    &&& s[3]@ == ".bmp"@
    &&& s[4]@ == ".gif"@
    &&& s[5]@ == ".ico"@
    &&& s[6]@ == ".tiff"@
    &&& s[7]@ == ".webp"@
}

/// The default spreadsheet-file table: the four extensions below, in this
/// order.
pub open spec fn default_excel_table(s: Seq<String>) -> bool {
    &&& s.len() == 4
    &&& s[0]@ == ".xls"@
    &&& s[1]@ == ".xlsx"@
    &&& s[2]@ == ".csv"@
    &&& s[3]@ == ".xlsm"@
}

/// The default table of code-file extensions the monitor cares about.
pub fn get_code_extensions() -> (r: Vec<String>)
    ensures
        default_code_table(r@),
{
    let mut r: Vec<String> = Vec::new();
    r.push(String::from_str(".cpp"));
    r.push(String::from_str(".h"));
    r.push(String::from_str(".hpp"));
    r.push(String::from_str(".c"));
    r.push(String::from_str(".cs"));
    r.push(String::from_str(".py"));
    r.push(String::from_str(".java"));
    r.push(String::from_str(".js"));
    r.push(String::from_str(".ts"));
    r.push(String::from_str(".html"));
    r.push(String::from_str(".css"));
    r.push(String::from_str(".json"));
    r.push(String::from_str(".xml"));
    r.push(String::from_str(".sql"));
    r.push(String::from_str(".go"));
    r.push(String::from_str(".rs"));
    r
}

/// The default table of image-file extensions the monitor cares about.
pub fn get_image_extensions() -> (r: Vec<String>)
    ensures
        default_image_table(r@),
{
    let mut r: Vec<String> = Vec::new();
    r.push(String::from_str(".jpg"));
    r.push(String::from_str(".jpeg"));
    r.push(String::from_str(".png"));
    r.push(String::from_str(".bmp"));
    r.push(String::from_str(".gif"));
    r.push(String::from_str(".ico"));
    r.push(String::from_str(".tiff"));
    r.push(String::from_str(".webp"));
    r
}

/// The default table of spreadsheet-file extensions the monitor cares about.
pub fn get_excel_extensions() -> (r: Vec<String>)
    ensures
        default_excel_table(r@),
{
    let mut r: Vec<String> = Vec::new();
    r.push(String::from_str(".xls"));
    r.push(String::from_str(".xlsx"));
    r.push(String::from_str(".csv"));
    r.push(String::from_str(".xlsm"));
    r
}

/// The three category tables the file-drop analyzer consults, checked in the
/// order image, spreadsheet, code.
pub struct CategoryTables {
    pub image: Vec<String>,
    pub excel: Vec<String>,
    pub code: Vec<String>,
}

impl CategoryTables {
    /// Assemble the tables from the three extension lists the host supplies.
    pub fn new(image: Vec<String>, excel: Vec<String>, code: Vec<String>) -> (r: CategoryTables)
        ensures
            r.image@ == image@,
            r.excel@ == excel@,
            r.code@ == code@,
    {
        CategoryTables { image, excel, code }
    }
}

} // verus!
