//! Files of various formats, generic over how their data is held.

use vstd::prelude::*;

verus! {

/// The document formats of one office suite.
#[derive(Debug)]
pub enum MSDocType {
    DOC,
    DOCX,
    XLSX,
}

/// The file formats the library knows about.
#[derive(Debug)]
pub enum FileTypes {
    Microsoft(MSDocType),
    PDF,
}

/// The MIME content type that belongs to each file format.
pub open spec fn content_type_of(file_type: FileTypes) -> Seq<char> {
    match file_type {
        FileTypes::Microsoft(MSDocType::DOC) => "application/msword"@,
        FileTypes::Microsoft(MSDocType::DOCX) =>
            "application/vnd.openxmlformats-officedocument.wordprocessingml.document"@,
        FileTypes::Microsoft(MSDocType::XLSX) =>
            "application/vnd.openxmlformats-officedocument.spreadsheetml.sheet"@,
        FileTypes::PDF => "application/pdf"@,
    }
}

/// A file: its format, its size, and its data in some representation.
pub struct File<T> {
    pub file_type: FileTypes,
    pub size: u32,
    pub data: T,
}

impl<T> File<T> {
    /// Returns the MIME content type matching the file's format.
    pub fn get_content_type(&self) -> (r: &str)
        ensures
            r@ == content_type_of(self.file_type),
    {
        match &self.file_type {
            FileTypes::Microsoft(file_type) => match file_type {
                MSDocType::DOC => "application/msword",
                MSDocType::DOCX => {
                    "application/vnd.openxmlformats-officedocument.wordprocessingml.document"
                },
                MSDocType::XLSX => {
                    "application/vnd.openxmlformats-officedocument.spreadsheetml.sheet"
                },
            },
            FileTypes::PDF => "application/pdf",
        }
    }
}

impl<'d> File<&'d str> {
    /// Hands out the data of a file that holds text.
    pub fn get_string_data(&self) -> (r: &str)
        ensures
            r@ == self.data@,
    {
        &self.data
    }
}

impl<'d> File<&'d [u8]> {
    /// Hands out the data of a file that holds raw bytes.
    pub fn get_bytes_data(&self) -> (r: &[u8])
        ensures
            r@ == self.data@,
    {
        self.data
    }
}

} // verus!
