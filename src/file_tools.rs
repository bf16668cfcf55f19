//! The computing side of the two file tools: their argument shapes, and the
//! text that a directory listing is reported as.

use vstd::prelude::*;

verus! {

/// The arguments of the list-files tool.
#[derive(Debug)]
pub struct ListFileInput {
    pub input: ListFileInputInner,
}

#[derive(Debug)]
pub struct ListFileInputInner {
    pub path: String,
}

impl Default for ListFileInput {
    /// Lists the current directory.
    fn default() -> (r: Self)
        ensures
            r.input.path@ == "."@,
    {
        ListFileInput { input: ListFileInputInner { path: ".".to_string() } }
    }
}

/// The arguments of the read-file tool.
#[derive(Debug)]
pub struct ReadFileInput {
    pub input: Input,
}

#[derive(Debug)]
pub struct Input {
    pub path: String,
}

/// One entry of a directory, as the file system reported it.
#[derive(Debug)]
pub struct DirEntryInfo {
    pub path: String,
    pub is_dir: bool,
}

/// How an entry is listed: a directory's path ends with a slash.
pub open spec fn entry_text(e: DirEntryInfo) -> Seq<char> {
    if e.is_dir {
        e.path@ + "/"@
    } else {
        e.path@
    }
}

/// `items` in order, with `sep` between each two.
pub open spec fn joined(items: Seq<Seq<char>>, sep: Seq<char>) -> Seq<char>
    decreases items.len(),
{
    if items.len() == 0 {
        Seq::empty()
    } else if items.len() == 1 {
        items[0]
    } else {
        joined(items.drop_last(), sep) + sep + items.last()
    }
}

pub const LISTING_SEPARATOR: &'static str = ", ";

/// The report of a listing: every entry in order, separated by a comma and a space.
pub fn listing_text(entries: &Vec<DirEntryInfo>) -> (r: String)
    ensures
        r@ == joined(entries@.map_values(|e: DirEntryInfo| entry_text(e)), LISTING_SEPARATOR@),
{
    let ghost items = entries@.map_values(|e: DirEntryInfo| entry_text(e));
    let mut r = String::new();
    let mut i: usize = 0;
    while i < entries.len()
        invariant
            i <= entries@.len(),
            items == entries@.map_values(|e: DirEntryInfo| entry_text(e)),
            r@ == joined(items.take(i as int), LISTING_SEPARATOR@),
        decreases entries@.len() - i,
    {
        assert(items.take(i + 1).drop_last() =~= items.take(i as int));
        assert(items.take(i + 1).last() == entry_text(entries@[i as int]));
        if i > 0 {
            r.append(LISTING_SEPARATOR);
        } else {
            assert(r@ =~= Seq::<char>::empty());
        }
        let e = &entries[i];
        r.append(e.path.as_str());
        if e.is_dir {
            r.append("/");
        }
        proof {
            if i == 0 {
                assert(r@ =~= items.take(1)[0]);
            }
        }
        i = i + 1;
    }
    assert(items.take(i as int) =~= items);
    r
}

} // verus!
