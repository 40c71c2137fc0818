//! Short links as the table stores them.

use vstd::prelude::*;
use vstd::string::*;
use crate::item::{
    counter, counter_attribute, get_counter, get_instant, get_optional_instant, get_text,
    instant_attribute, item_view, optional_instant, push_attribute, required_instant, required_text,
    text_attr, text_attribute, Attribute, AttributeView, Field, ItemError, ValueView,
};
use crate::number::decimal;
use crate::shortener::entry::Entry;
use crate::stored::Stored;
use crate::time::rfc3339_text;

verus! {

/// The link that an item stands for, or what is wrong with the item. The
/// fields are read in the order shortname, created_at, deleted_at, longurl,
/// clicks, and the first that fails decides the error.
pub open spec fn entry_from_item(item: Seq<Attribute>) -> Result<Entry, ItemError> {
    let shortname = required_text(item, Field::Shortname);
    let created_at = required_instant(item, Field::CreatedAt);
    let deleted_at = optional_instant(item, Field::DeletedAt);
    let longurl = required_text(item, Field::Longurl);
    let clicks = counter(item, Field::Clicks);
    if shortname is Err {
        Err(shortname->Err_0)
    } else if created_at is Err {
        Err(created_at->Err_0)
    } else if deleted_at is Err {
        Err(deleted_at->Err_0)
    } else if longurl is Err {
        Err(longurl->Err_0)
    } else if clicks is Err {
        Err(clicks->Err_0)
    } else {
        Ok(
            Entry {
                shortname: shortname->Ok_0,
                created_at: created_at->Ok_0,
                deleted_at: deleted_at->Ok_0,
                longurl: longurl->Ok_0,
                clicks: clicks->Ok_0,
            },
        )
    }
}

/// The item that stores a link whose instants are written as `created` and
/// `deleted`: shortname, created_at, deleted_at if set, longurl, clicks.
pub open spec fn item_of(entry: Entry, created: Seq<char>, deleted: Option<Seq<char>>) -> Seq<AttributeView> {
    seq![text_attr(Field::Shortname, entry.shortname@), text_attr(Field::CreatedAt, created)] + (match deleted {
        Some(d) => seq![text_attr(Field::DeletedAt, d)],
        None => Seq::empty(),
    }) + seq![
        text_attr(Field::Longurl, entry.longurl@),
        AttributeView { name: Field::Clicks.name(), value: ValueView::N(decimal(entry.clicks as nat)) },
    ]
}

/// The item that stores a link, or the field whose instant cannot be
/// written.
pub open spec fn stored(entry: Entry) -> Result<Seq<AttributeView>, ItemError> {
    match rfc3339_text(entry.created_at.secs, entry.created_at.nanos) {
        None => Err(ItemError::Unrepresentable(Field::CreatedAt)),
        Some(created) => match entry.deleted_at {
            None => Ok(item_of(entry, created, None)),
            Some(d) => match rfc3339_text(d.secs, d.nanos) {
                None => Err(ItemError::Unrepresentable(Field::DeletedAt)),
                Some(deleted) => Ok(item_of(entry, created, Some(deleted))),
            },
        },
    }
}

impl Entry {
    /// Makes the item that stores the link.
    pub fn items(&self) -> (r: Result<Vec<Attribute>, ItemError>)
        ensures
            match stored(*self) {
                Ok(expected) => r matches Ok(item) && item_view(item@) == expected,
                Err(e) => r == Err::<Vec<Attribute>, ItemError>(e),
            },
    {
        let mut item: Vec<Attribute> = Vec::new();
        proof {
            assert(item_view(item@) =~= Seq::<AttributeView>::empty());
        }
        push_attribute(&mut item, text_attribute(Field::Shortname, self.shortname.clone()));
        match instant_attribute(Field::CreatedAt, &self.created_at) {
            Ok(a) => push_attribute(&mut item, a),
            Err(e) => {
                return Err(e);
            },
        }
        match &self.deleted_at {
            Some(d) => match instant_attribute(Field::DeletedAt, d) {
                Ok(a) => push_attribute(&mut item, a),
                Err(e) => {
                    return Err(e);
                },
            },
            None => {},
        }
        push_attribute(&mut item, text_attribute(Field::Longurl, self.longurl.clone()));
        push_attribute(&mut item, counter_attribute(Field::Clicks, self.clicks));
        proof {
            assert(item_view(item@) =~= stored(*self)->Ok_0);
        }
        Ok(item)
    }

    /// Reads the link that an item stands for.
    pub fn try_from_item(item: &Vec<Attribute>) -> (r: Result<Entry, ItemError>)
        ensures
            r == entry_from_item(item@),
    {
        let shortname = match get_text(item, Field::Shortname) {
            Ok(s) => s,
            Err(e) => {
                return Err(e);
            },
        };
        let created_at = match get_instant(item, Field::CreatedAt) {
            Ok(t) => t,
            Err(e) => {
                return Err(e);
            },
        };
        let deleted_at = match get_optional_instant(item, Field::DeletedAt) {
            Ok(t) => t,
            Err(e) => {
                return Err(e);
            },
        };
        let longurl = match get_text(item, Field::Longurl) {
            Ok(s) => s,
            Err(e) => {
                return Err(e);
            },
        };
        let clicks = match get_counter(item, Field::Clicks) {
            Ok(n) => n,
            Err(e) => {
                return Err(e);
            },
        };
        Ok(Entry { shortname, created_at, deleted_at, longurl, clicks })
    }
}

impl Stored for Entry {
    open spec fn decoded(item: Seq<Attribute>) -> Result<Entry, ItemError> {
        entry_from_item(item)
    }

    open spec fn encoded(&self) -> Result<Seq<AttributeView>, ItemError> {
        stored(*self)
    }

    fn decode(item: &Vec<Attribute>) -> (r: Result<Entry, ItemError>) {
        Entry::try_from_item(item)
    }

    fn encode(&self) -> (r: Result<Vec<Attribute>, ItemError>) {
        self.items()
    }
}

} // verus!
