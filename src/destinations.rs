use vstd::prelude::*;

use crate::model::{FileSystemError, MediaItemMetadata};
use crate::paths::{
    join, join_path, replace_first, replace_first_text, signed_decimal, signed_decimal_text,
    two_digit_text, two_digits,
};

verus! {

/// The placeholder for the four-digit year of an item's creation date.
pub open spec fn year_marker() -> Seq<char> {
    seq!['%', 'y', 'e', 'a', 'r', '%']
}

/// The placeholder for the two-digit month of an item's creation date.
pub open spec fn month_marker() -> Seq<char> {
    seq!['%', 'm', 'o', 'n', 't', 'h', '%']
}

/// The directory that a suffix template names once an item's date is filled in.
pub open spec fn fill_template(template: Seq<char>, item: MediaItemMetadata) -> Seq<char> {
    replace_first(
        replace_first(template, year_marker(), signed_decimal(item.creation_date.year as int)),
        month_marker(),
        two_digits(item.creation_date.month as nat),
    )
}

/// Where an item goes when confirmed into a destination with the given base
/// path and suffix template.
pub open spec fn destination_path(base: Seq<char>, template: Seq<char>, item: MediaItemMetadata) -> Seq<char> {
    let folder = if template.len() == 0 {
        base
    } else {
        join(base, fill_template(template, item))
    };
    join(folder, item.name@)
}

/// The id and name of a destination, as shown to callers.
pub struct FileSystemDestination {
    pub id: u64,
    pub name: String,
}

/// A configured destination: a base directory and a suffix template that may
/// hold the placeholders `%year%` and `%month%`.
#[derive(Clone, Debug)]
pub struct FileSystemDestinationInternal {
    pub id: u64,
    pub name: String,
    pub base_path: String,
    pub dynamic_bp_suffix: String,
}

impl FileSystemDestinationInternal {
    pub fn new(name: String, base_path: String, dynamic_bp_suffix: String) -> (r: Self)
        ensures
            r.id == 0,
            r.name == name,
            r.base_path == base_path,
            r.dynamic_bp_suffix == dynamic_bp_suffix,
    {
        FileSystemDestinationInternal { id: 0, name, base_path, dynamic_bp_suffix }
    }

    /// The path that `item` would be confirmed to.
    pub fn derive_path(&self, item: &MediaItemMetadata) -> (r: String)
        ensures
            r@ == destination_path(self.base_path@, self.dynamic_bp_suffix@, *item),
    {
        let folder = if self.dynamic_bp_suffix.unicode_len() == 0 {
            self.base_path.clone()
        } else {
            let year = signed_decimal_text(item.creation_date.year);
            let month = two_digit_text(item.creation_date.month);
            proof {
                reveal_strlit("%year%");
                reveal_strlit("%month%");
            }
            let with_year = replace_first_text(self.dynamic_bp_suffix.as_str(), "%year%", year.as_str());
            let suffix = replace_first_text(with_year.as_str(), "%month%", month.as_str());
            proof {
                assert("%year%"@ =~= year_marker());
                assert("%month%"@ =~= month_marker());
                assert(suffix@ == fill_template(self.dynamic_bp_suffix@, *item));
            }
            join_path(self.base_path.as_str(), suffix.as_str())
        };
        join_path(folder.as_str(), item.name.as_str())
    }
}

/// The configured destinations, each with its position as its id.
pub struct FileSystemDestinations(Vec<FileSystemDestinationInternal>);

impl FileSystemDestinations {
    /// The destinations, in load order.
    pub closed spec fn entries(self) -> Seq<FileSystemDestinationInternal> {
        self.0@
    }

    /// Each destination's id is its position.
    pub open spec fn wf(self) -> bool {
        forall|i: int| 0 <= i < self.entries().len() ==> #[trigger] self.entries()[i].id == i
    }

    /// Takes destinations in load order and numbers them by position.
    pub fn from_list(items: Vec<FileSystemDestinationInternal>) -> (r: Self)
        ensures
            r.wf(),
            r.entries().len() == items.len(),
            forall|i: int| #![trigger r.entries()[i]]
                0 <= i < items.len() ==> r.entries()[i].name == items[i].name && r.entries()[i].base_path
                    == items[i].base_path && r.entries()[i].dynamic_bp_suffix == items[i].dynamic_bp_suffix,
    {
        let mut s: Vec<FileSystemDestinationInternal> = Vec::new();
        let mut i: usize = 0;
        while i < items.len()
            invariant
                i <= items.len(),
                s.len() == i,
                forall|k: int| #![trigger s[k]]
                    0 <= k < i ==> s[k].id == k && s[k].name == items[k].name && s[k].base_path
                        == items[k].base_path && s[k].dynamic_bp_suffix == items[k].dynamic_bp_suffix,
            decreases items.len() - i,
        {
            let it = &items[i];
            let entry = FileSystemDestinationInternal {
                id: i as u64,
                name: it.name.clone(),
                base_path: it.base_path.clone(),
                dynamic_bp_suffix: it.dynamic_bp_suffix.clone(),
            };
            s.push(entry);
            i = i + 1;
        }
        FileSystemDestinations(s)
    }

    /// The path that `item` would be confirmed to in destination `id`.
    pub fn derive_using(&self, id: u64, item: &MediaItemMetadata) -> (r: Result<String, FileSystemError>)
        ensures
            match r {
                Ok(p) => id < self.entries().len() && p@ == destination_path(
                    self.entries()[id as int].base_path@,
                    self.entries()[id as int].dynamic_bp_suffix@,
                    *item,
                ),
                Err(e) => id >= self.entries().len() && e == FileSystemError::UnknownId(id),
            },
    {
        if id < self.0.len() as u64 {
            Ok(self.0[id as usize].derive_path(item))
        } else {
            Err(FileSystemError::UnknownId(id))
        }
    }

    /// The id and name of each destination, in load order.
    pub fn list(&self) -> (r: Vec<FileSystemDestination>)
        requires
            self.wf(),
        ensures
            r.len() == self.entries().len(),
            forall|i: int| #![trigger r[i]]
                0 <= i < r.len() ==> r[i].id == i && r[i].name == self.entries()[i].name,
    {
        let mut out: Vec<FileSystemDestination> = Vec::new();
        let mut i: usize = 0;
        while i < self.0.len()
            invariant
                self.wf(),
                i <= self.0.len(),
                out.len() == i,
                forall|k: int| #![trigger out[k]]
                    0 <= k < i ==> out[k].id == k && out[k].name == self.0[k].name,
            decreases self.0.len() - i,
        {
            proof {
                assert(self.entries()[i as int].id == i);
            }
            out.push(FileSystemDestination { id: self.0[i].id, name: self.0[i].name.clone() });
            i = i + 1;
        }
        out
    }
}

} // verus!
