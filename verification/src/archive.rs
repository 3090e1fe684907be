//! Reading ZIP archives held in memory, through the `zip` crate.
use vstd::prelude::*;

verus! {

#[verifier::external_type_specification]
#[verifier::external_body]
#[verifier::reject_recursive_types(R)]
pub struct ExZipArchive<R>(zip::ZipArchive<R>);

#[verifier::external_type_specification]
#[verifier::external_body]
#[verifier::reject_recursive_types(T)]
pub struct ExCursor<T>(std::io::Cursor<T>);

/// The entries of an opened archive, in the order of its central directory:
/// `None` for an entry that cannot be opened, else its name and its contents
/// (`None` when they cannot be read).
pub uninterp spec fn zip_contents(archive: zip::ZipArchive<std::io::Cursor<Vec<u8>>>) -> Seq<Option<(Seq<char>, Option<Seq<u8>>)>>;

/// What `zip::ZipArchive::new` makes of `data`: `None` when it is not a
/// readable ZIP archive, else the entries it holds.
pub uninterp spec fn zip_parse(data: Seq<u8>) -> Option<Seq<Option<(Seq<char>, Option<Seq<u8>>)>>>;

/// `zip::ZipArchive::new` over the bytes: the archive, whose entries are
/// what `zip_parse` names for these bytes, or `None` when the bytes are not
/// a readable archive.
#[verifier::external_body]
pub(crate) fn zip_open(data: Vec<u8>) -> (r: Option<zip::ZipArchive<std::io::Cursor<Vec<u8>>>>)
    ensures
        match r {
            Some(a) => zip_parse(data@) == Some(zip_contents(a)),
            None => zip_parse(data@) is None,
        },
{
    zip::ZipArchive::new(std::io::Cursor::new(data)).ok()
}

/// `zip::ZipArchive::len`: the number of entries.
#[verifier::external_body]
pub(crate) fn zip_len(archive: &zip::ZipArchive<std::io::Cursor<Vec<u8>>>) -> (n: usize)
    ensures
        n == zip_contents(*archive).len(),
{
    archive.len()
}

/// `zip::ZipArchive::by_index` followed by `ZipFile::name` and reading the
/// entry to its end: the entry's name and contents as `zip_contents` names
/// them. Reading moves the archive's cursor and changes no entry.
#[verifier::external_body]
pub(crate) fn zip_entry(archive: &mut zip::ZipArchive<std::io::Cursor<Vec<u8>>>, index: usize) -> (r: Option<(String, Option<Vec<u8>>)>)
    requires
        index < zip_contents(*old(archive)).len(),
    ensures
        zip_contents(*final(archive)) == zip_contents(*old(archive)),
        match r {
            None => zip_contents(*old(archive))[index as int] is None,
            Some((name, data)) => zip_contents(*old(archive))[index as int] matches Some((n, d))
                && n == name@ && match data {
                    Some(v) => d == Some(v@),
                    None => d is None,
                },
        },
{
    match archive.by_index(index) {
        Ok(mut file) => {
            let name = file.name().to_string();
            let mut buf: Vec<u8> = Vec::new();
            let data = match std::io::Read::read_to_end(&mut file, &mut buf) {
                Ok(_) => Some(buf),
                Err(_) => None,
            };
            Some((name, data))
        },
        Err(_) => None,
    }
}

} // verus!
