//! JSON documents held as their compact text.

use vstd::prelude::*;
use vstd::string::StringSliceAdditionalSpecFns;
use crate::json::{json_canonical, parse_value, value_text};

verus! {

/// A JSON value held as text: `parse` keeps the compact form that
/// `serde_json` prints. The store and the orchestrator never look inside:
/// only an allocation strategy gives the fields a meaning.
#[derive(Debug, PartialEq, Eq)]
pub struct Document {
    text: String,
}

impl View for Document {
    type V = Seq<char>;

    closed spec fn view(&self) -> Seq<char> {
        self.text@
    }
}

impl Clone for Document {
    fn clone(&self) -> (r: Self)
        ensures
            r@ == self@,
    {
        Document { text: self.text.clone() }
    }
}

/// The texts with a comma between each two.
pub open spec fn comma_separated(items: Seq<Seq<char>>) -> Seq<char>
    decreases items.len(),
{
    if items.len() == 0 {
        Seq::empty()
    } else if items.len() == 1 {
        items[0]
    } else {
        comma_separated(items.drop_last()) + ","@ + items.last()
    }
}

/// The text of the JSON array of the given elements.
pub open spec fn array_json(items: Seq<Seq<char>>) -> Seq<char> {
    "["@ + comma_separated(items) + "]"@
}

/// The texts of a run of documents.
pub open spec fn documents_text(items: Seq<Document>) -> Seq<Seq<char>> {
    items.map_values(|d: Document| d@)
}

impl Document {
    /// Reads a JSON text and keeps it in compact form.
    pub fn parse(text: &str) -> (r: Option<Document>)
        ensures
            match r {
                Some(document) => json_canonical(text.spec_bytes()) == Some(document@),
                None => json_canonical(text.spec_bytes()) is None,
            },
    {
        match parse_value(text.as_bytes()) {
            Ok(value) => Some(Document { text: value_text(&value) }),
            Err(_) => None,
        }
    }

    /// A document of the given text, taken as it is.
    pub(crate) fn from_text(text: String) -> (r: Document)
        ensures
            r@ == text@,
    {
        Document { text }
    }

    /// The array of the given documents, in their order.
    pub fn array(items: &Vec<Document>) -> (r: Document)
        ensures
            r@ == array_json(documents_text(items@)),
    {
        let ghost all = documents_text(items@);
        let mut text = "[".to_owned();
        let mut i: usize = 0;
        while i < items.len()
            invariant
                i <= items.len(),
                all == documents_text(items@),
                text@ == "["@ + comma_separated(all.take(i as int)),
            decreases items.len() - i,
        {
            if i > 0 {
                text.append(",");
            }
            text.append(items[i].as_str());
            proof {
                let next = all.take(i + 1);
                assert(next.drop_last() =~= all.take(i as int));
            }
            i += 1;
        }
        proof {
            assert(all.take(i as int) =~= all);
        }
        text.append("]");
        Document { text }
    }

    /// The compact text.
    pub fn as_str(&self) -> (r: &str)
        ensures
            r@ == self@,
    {
        self.text.as_str()
    }

    /// Whether two documents hold the same text.
    pub fn same_as(&self, other: &Document) -> (r: bool)
        ensures
            r == (self@ == other@),
    {
        self.text == other.text
    }
}

} // verus!
