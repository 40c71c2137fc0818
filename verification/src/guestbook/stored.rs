//! Guestbook entries as the table stores them.

use vstd::prelude::*;
use vstd::string::*;
use crate::guestbook::entry::{Entry, SerOptions};
use crate::ident::{hyphenated, id_text, parse_id, parsed_id};
use crate::item::{
    flag, flag_attribute, get_flag, get_instant, get_optional_instant, get_optional_text, get_text,
    instant_attribute, item_view, optional_instant, optional_text, push_attribute, required_instant,
    required_text, text_attr, text_attribute, Attribute, AttributeView, Field, ItemError, ValueView,
};
use crate::stored::Stored;
use crate::time::rfc3339_text;

verus! {

/// The key that an item holds.
pub open spec fn stored_id(item: Seq<Attribute>) -> Result<u128, ItemError> {
    match required_text(item, Field::Id) {
        Ok(s) => match parsed_id(s@) {
            Some(id) => Ok(id),
            None => Err(ItemError::InvalidFormat(Field::Id)),
        },
        Err(e) => Err(e),
    }
}

/// The entry that an item stands for, or what is wrong with the item. The
/// fields are read in the order id, created_at, deleted_at, message, name,
/// url, email, qa, and the first that fails decides the error.
pub open spec fn entry_from_item(item: Seq<Attribute>) -> Result<Entry, ItemError> {
    let id = stored_id(item);
    let created_at = required_instant(item, Field::CreatedAt);
    let deleted_at = optional_instant(item, Field::DeletedAt);
    let message = required_text(item, Field::Message);
    let name = required_text(item, Field::Name);
    let url = optional_text(item, Field::Url);
    let email = optional_text(item, Field::Email);
    let qa = flag(item, Field::Qa);
    if id is Err {
        Err(id->Err_0)
    } else if created_at is Err {
        Err(created_at->Err_0)
    } else if deleted_at is Err {
        Err(deleted_at->Err_0)
    } else if message is Err {
        Err(message->Err_0)
    } else if name is Err {
        Err(name->Err_0)
    } else if url is Err {
        Err(url->Err_0)
    } else if email is Err {
        Err(email->Err_0)
    } else if qa is Err {
        Err(qa->Err_0)
    } else {
        Ok(
            Entry {
                id: id->Ok_0,
                created_at: created_at->Ok_0,
                deleted_at: deleted_at->Ok_0,
                url: url->Ok_0,
                email: email->Ok_0,
                message: message->Ok_0,
                name: name->Ok_0,
                qa: qa->Ok_0,
                ser_options: SerOptions { deleted_at: false, qa: false },
            },
        )
    }
}

/// The attribute of an optional text: none where the text is not set.
pub open spec fn optional_attr(field: Field, text: Option<String>) -> Seq<AttributeView> {
    match text {
        Some(s) => seq![text_attr(field, s@)],
        None => Seq::empty(),
    }
}

/// The item that stores an entry whose instants are written as `created`
/// and `deleted`: id, created_at, deleted_at if set, url if set, email if
/// set, message, name, qa. The response options are not stored.
pub open spec fn item_of(entry: Entry, created: Seq<char>, deleted: Option<Seq<char>>) -> Seq<AttributeView> {
    seq![text_attr(Field::Id, hyphenated(entry.id)), text_attr(Field::CreatedAt, created)] + (match deleted {
        Some(d) => seq![text_attr(Field::DeletedAt, d)],
        None => Seq::empty(),
    }) + optional_attr(Field::Url, entry.url) + optional_attr(Field::Email, entry.email) + seq![
        text_attr(Field::Message, entry.message@),
        text_attr(Field::Name, entry.name@),
        AttributeView { name: Field::Qa.name(), value: ValueView::Bool(entry.qa) },
    ]
}

/// The item that stores an entry, or the field whose instant cannot be
/// written.
pub open spec fn stored(entry: Entry) -> Result<Seq<AttributeView>, ItemError> {
    match rfc3339_text(entry.created_at.secs, entry.created_at.nanos) {
        None => Err(ItemError::Unrepresentable(Field::CreatedAt)),
        Some(created) => match entry.deleted_at {
            None => Ok(item_of(entry, created, None)),
            Some(d) => match rfc3339_text(d.secs, d.nanos) {
                None => Err(ItemError::Unrepresentable(Field::DeletedAt)),
                Some(deleted) => Ok(item_of(entry, created, Some(deleted))),
            },
        },
    }
}

impl Entry {
    /// Makes the item that stores the entry.
    pub fn items(&self) -> (r: Result<Vec<Attribute>, ItemError>)
        ensures
            match stored(*self) {
                Ok(expected) => r matches Ok(item) && item_view(item@) == expected,
                Err(e) => r == Err::<Vec<Attribute>, ItemError>(e),
            },
    {
        let mut item: Vec<Attribute> = Vec::new();
        proof {
            assert(item_view(item@) =~= Seq::<AttributeView>::empty());
        }
        push_attribute(&mut item, text_attribute(Field::Id, id_text(self.id)));
        match instant_attribute(Field::CreatedAt, &self.created_at) {
            Ok(a) => push_attribute(&mut item, a),
            Err(e) => {
                return Err(e);
            },
        }
        match &self.deleted_at {
            Some(d) => match instant_attribute(Field::DeletedAt, d) {
                Ok(a) => push_attribute(&mut item, a),
                Err(e) => {
                    return Err(e);
                },
            },
            None => {},
        }
        match &self.url {
            Some(u) => push_attribute(&mut item, text_attribute(Field::Url, u.clone())),
            None => {},
        }
        match &self.email {
            Some(m) => push_attribute(&mut item, text_attribute(Field::Email, m.clone())),
            None => {},
        }
        push_attribute(&mut item, text_attribute(Field::Message, self.message.clone()));
        push_attribute(&mut item, text_attribute(Field::Name, self.name.clone()));
        push_attribute(&mut item, flag_attribute(Field::Qa, self.qa));
        proof {
            assert(item_view(item@) =~= stored(*self)->Ok_0);
        }
        Ok(item)
    }

    /// Reads the entry that an item stands for. The entry comes without
    /// response options.
    pub fn try_from_item(item: &Vec<Attribute>) -> (r: Result<Entry, ItemError>)
        ensures
            r == entry_from_item(item@),
    {
        let id = match get_text(item, Field::Id) {
            Ok(s) => match parse_id(s.as_str()) {
                Some(id) => id,
                None => {
                    return Err(ItemError::InvalidFormat(Field::Id));
                },
            },
            Err(e) => {
                return Err(e);
            },
        };
        let created_at = match get_instant(item, Field::CreatedAt) {
            Ok(t) => t,
            Err(e) => {
                return Err(e);
            },
        };
        let deleted_at = match get_optional_instant(item, Field::DeletedAt) {
            Ok(t) => t,
            Err(e) => {
                return Err(e);
            },
        };
        let message = match get_text(item, Field::Message) {
            Ok(s) => s,
            Err(e) => {
                return Err(e);
            },
        };
        let name = match get_text(item, Field::Name) {
            Ok(s) => s,
            Err(e) => {
                return Err(e);
            },
        };
        let url = match get_optional_text(item, Field::Url) {
            Ok(s) => s,
            Err(e) => {
                return Err(e);
            },
        };
        let email = match get_optional_text(item, Field::Email) {
            Ok(s) => s,
            Err(e) => {
                return Err(e);
            },
        };
        let qa = match get_flag(item, Field::Qa) {
            Ok(b) => b,
            Err(e) => {
                return Err(e);
            },
        };
        Ok(
            Entry {
                id,
                created_at,
                deleted_at,
                url,
                email,
                message,
                name,
                qa,
                ser_options: SerOptions { deleted_at: false, qa: false },
            },
        )
    }
}

impl Stored for Entry {
    open spec fn decoded(item: Seq<Attribute>) -> Result<Entry, ItemError> {
        entry_from_item(item)
    }

    open spec fn encoded(&self) -> Result<Seq<AttributeView>, ItemError> {
        stored(*self)
    }

    fn decode(item: &Vec<Attribute>) -> (r: Result<Entry, ItemError>) {
        Entry::try_from_item(item)
    }

    fn encode(&self) -> (r: Result<Vec<Attribute>, ItemError>) {
        self.items()
    }
}

} // verus!
