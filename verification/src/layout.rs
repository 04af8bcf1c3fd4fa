//! Where the stores keep what the pipeline hands them.

use crate::identifier::{hyphenated, hyphen_at, lower_hex};
use crate::item::Payload;
use vstd::prelude::*;
use vstd::string::StringExecFns;

verus! {

/// The collection that holds the records of one stream.
pub open spec fn collection_of(tag: Seq<char>) -> Seq<char> {
    "pis-aller-"@ + tag
}

/// The directory below which all files of one application lie.
pub open spec fn base_of(application: Seq<char>) -> Seq<char> {
    "pis-aller/"@ + application
}

/// The directory that holds the files of one stream of one application.
pub open spec fn folder_of(application: Seq<char>, tag: Seq<char>) -> Seq<char> {
    base_of(application) + "/"@ + tag
}

/// The file for one payload: in `folder`, named by `identifier`, with the
/// payload's format as its extension.
pub open spec fn file_of(folder: Seq<char>, identifier: Seq<char>, format: Seq<char>) -> Seq<
    char,
> {
    folder + "/"@ + identifier + "."@ + format
}

/// The name of the collection for the records tagged `tag`.
pub fn collection_name(tag: &str) -> (name: String)
    ensures
        name@ == collection_of(tag@),
{
    String::from_str("pis-aller-").concat(tag)
}

/// The directory that has to exist before the pipeline of `application`
/// starts.
pub fn base_directory(application: &str) -> (path: String)
    ensures
        path@ == base_of(application@),
{
    String::from_str("pis-aller/").concat(application)
}

/// The directory for the files of the stream `tag` of `application`.
pub fn tag_directory(application: &str, tag: &str) -> (path: String)
    ensures
        path@ == folder_of(application@, tag@),
{
    base_directory(application).concat("/").concat(tag)
}

/// The path of the file that `identifier` names in `folder`.
pub fn file_path(folder: &str, identifier: &str, format: &str) -> (path: String)
    ensures
        path@ == file_of(folder@, identifier@, format@),
{
    String::from_str(folder).concat("/").concat(identifier).concat(".").concat(format)
}

/// A file that is named by a well-formed identifier lies in its folder and
/// not below it: its path is the folder, a slash, and a name without a
/// slash. The name is the identifier, a dot, and the format of the payload.
pub proof fn lemma_file_lies_in_folder(folder: Seq<char>, identifier: Seq<char>, payload: Payload)
    requires
        hyphenated(identifier),
    ensures
        file_of(folder, identifier, payload.format()) == folder + seq!['/'] + (identifier
            + seq!['.'] + payload.format()),
        !(identifier + seq!['.'] + payload.format()).contains('/'),
{
    reveal_strlit("/");
    reveal_strlit(".");
    reveal_strlit("bin");
    reveal_strlit("json");
    reveal_strlit("txt");
    reveal_strlit("rson");
    let name = identifier + seq!['.'] + payload.format();
    assert("/"@ =~= seq!['/']);
    assert("."@ =~= seq!['.']);
    assert(file_of(folder, identifier, payload.format()) =~= folder + seq!['/'] + name);
    assert forall|i: int| 0 <= i < name.len() implies name[i] != '/' by {
        if i < 36 {
            assert(name[i] == identifier[i]);
            if hyphen_at(i) {
            } else {
                assert(lower_hex(identifier[i]));
            }
        }
    }
}

} // verus!
