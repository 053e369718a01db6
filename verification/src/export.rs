//! The export formats a unit can be written to.

use vstd::prelude::*;

verus! {

/// The formats the export layer can produce.
#[derive(Debug, Clone, Copy, PartialEq, Eq, Structural)]
pub enum ExportType {
    PDF,
    LATEX,
    HTML,
}

/// The display name of an export format.
pub open spec fn export_type_chars(t: ExportType) -> Seq<char> {
    match t {
        ExportType::PDF => ("PDF")@,
        ExportType::LATEX => ("LaTeX")@,
        ExportType::HTML => ("HTML")@,
    }
}

/// The file extension of an export format.
pub open spec fn export_extension_chars(t: ExportType) -> Seq<char> {
    match t {
        ExportType::PDF => ("pdf")@,
        ExportType::LATEX => ("tex")@,
        ExportType::HTML => ("html")@,
    }
}

impl ExportType {
    /// The display name of the format.
    pub fn to_string(&self) -> (r: String)
        ensures
            r@ == export_type_chars(*self),
    {
        match self {
            ExportType::PDF => String::from_str("PDF"),
            ExportType::LATEX => String::from_str("LaTeX"),
            ExportType::HTML => String::from_str("HTML"),
        }
    }

    /// The file extensions the format saves under.
    pub fn get_extensions(&self) -> (r: [&str; 1])
        ensures
            r[0]@ == export_extension_chars(*self),
    {
        match self {
            ExportType::PDF => ["pdf"],
            ExportType::LATEX => ["tex"],
            ExportType::HTML => ["html"],
        }
    }
}

} // verus!
