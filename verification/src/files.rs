//! A manifest entry and the content-store layout: each entry pairs a
//! checksum with the remote name it is fetched under; the checksum names
//! both the local store file and the golden record.

use vstd::prelude::*;
use vstd::string::*;
use crate::text::percent_encode_spaces;

verus! {

/// The mathematical value of a manifest entry.
pub ghost struct FilesListView {
    pub checksum: Seq<char>,
    pub file_name: Seq<char>,
}

/// One manifest entry: a checksum and the remote file name it was listed
/// under. The name may contain spaces.
#[derive(Debug, Clone)]
pub struct FilesList {
    checksum: String,
    file_name: String,
}

impl View for FilesList {
    type V = FilesListView;

    closed spec fn view(&self) -> FilesListView {
        FilesListView { checksum: self.checksum@, file_name: self.file_name@ }
    }
}

/// The URL an entry is fetched from: the archive's download root followed by
/// the remote name with spaces percent-encoded.
pub open spec fn spec_download_url(file_name: Seq<char>) -> Seq<char> {
    "https://raw.pixls.us/download/data/"@ + percent_encode_spaces(file_name)
}

/// The content-store path of a checksum: one file per checksum under
/// "./files/", named exactly as the checksum.
pub open spec fn spec_store_path(checksum: Seq<char>) -> Seq<char> {
    "./files/"@ + checksum
}

/// The golden-record path of a checksum: the same naming under
/// "./known_good_outputs/".
pub open spec fn spec_golden_path(checksum: Seq<char>) -> Seq<char> {
    "./known_good_outputs/"@ + checksum
}

impl FilesList {
    pub fn new(checksum: String, file_name: String) -> (r: FilesList)
        ensures
            r@.checksum == checksum@,
            r@.file_name == file_name@,
    {
        FilesList { checksum, file_name }
    }

    /// The entry's checksum.
    pub fn checksum(&self) -> (r: &String)
        ensures
            r@ == self@.checksum,
    {
        &self.checksum
    }

    /// The entry's remote file name.
    pub fn file_name(&self) -> (r: &String)
        ensures
            r@ == self@.file_name,
    {
        &self.file_name
    }

    /// The URL the entry's content is fetched from.
    pub fn download_url(&self) -> (r: String)
        ensures
            r@ == spec_download_url(self@.file_name),
    {
        let mut url = "https://raw.pixls.us/download/data/".to_owned();
        let encoded = crate::text::encode_spaces(self.file_name.as_str());
        url.append(encoded.as_str());
        url
    }

    /// The content-store path the entry's bytes are saved at.
    pub fn save_path(&self) -> (r: String)
        ensures
            r@ == spec_store_path(self@.checksum),
    {
        store_path_for(self.checksum.as_str())
    }
}

/// The content-store path of a checksum, as used by both the download and
/// the verification phase.
pub fn store_path_for(checksum: &str) -> (r: String)
    ensures
        r@ == spec_store_path(checksum@),
{
    let mut path = "./files/".to_owned();
    path.append(checksum);
    path
}

/// The golden-record path of a checksum.
pub fn golden_path_for(checksum: &str) -> (r: String)
    ensures
        r@ == spec_golden_path(checksum@),
{
    let mut path = "./known_good_outputs/".to_owned();
    path.append(checksum);
    path
}

} // verus!
