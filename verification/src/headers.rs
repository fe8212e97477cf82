//! Request headers as the routes read them: names in lower case, values as
//! the bytes that came over the wire, in arrival order.

use crate::auth::lemma_text_bytes_injective;
use crate::auth::same_bytes;
use vstd::prelude::*;

verus! {

/// One header line: its name and the bytes of its value.
pub type Field = (Seq<char>, Seq<u8>);

/// The value of the first field at or after `from` that bears `name`.
pub open spec fn lookup(fields: Seq<Field>, name: Seq<char>, from: int) -> Option<Seq<u8>>
    decreases fields.len() - from,
{
    if from < 0 || from >= fields.len() {
        None
    } else if fields[from].0 == name {
        Some(fields[from].1)
    } else {
        lookup(fields, name, from + 1)
    }
}

/// A byte that may stand in header text: a tab or printable ASCII.
pub open spec fn visible(byte: u8) -> bool {
    byte == 9 || (32 <= byte < 127)
}

/// A header value that reads as text: every byte of it is visible.
pub open spec fn is_text(value: Seq<u8>) -> bool {
    forall|i: int| 0 <= i < value.len() ==> visible(#[trigger] value[i])
}

/// Whether every byte of a header value is a tab or printable ASCII.
pub fn reads_as_text(value: &[u8]) -> (text: bool)
    ensures
        text == is_text(value@),
{
    let mut at: usize = 0;
    while at < value.len()
        invariant
            at <= value@.len(),
            forall|i: int| 0 <= i < at ==> visible(#[trigger] value@[i]),
        decreases value@.len() - at,
    {
        let byte: u8 = value[at];
        if !(byte == 9 || (32 <= byte && byte < 127)) {
            assert(!visible(value@[at as int]));
            return false;
        }
        at += 1;
    }
    true
}

/// The headers of one request.
#[derive(Debug)]
pub struct Headers {
    fields: Vec<(String, Vec<u8>)>,
}

impl View for Headers {
    type V = Seq<Field>;

    closed spec fn view(&self) -> Seq<Field> {
        Seq::new(self.fields@.len(), |i: int| (self.fields@[i].0@, self.fields@[i].1@))
    }
}

impl Headers {
    /// No header at all.
    pub fn new() -> (headers: Headers)
        ensures
            headers@ == Seq::<Field>::empty(),
    {
        let headers = Headers { fields: Vec::new() };
        assert(headers@ =~= Seq::<Field>::empty());
        headers
    }

    /// Adds a header line after those already there.
    pub fn append(&mut self, name: String, value: Vec<u8>)
        ensures
            final(self)@ == old(self)@.push((name@, value@)),
    {
        self.fields.push((name, value));
        assert(self@ =~= old(self)@.push((name@, value@)));
    }

    /// Number of header lines.
    pub fn len(&self) -> (count: usize)
        ensures
            count == self@.len(),
    {
        self.fields.len()
    }

    /// The value of the first header named `name`, if there is one.
    pub fn get(&self, name: &str) -> (value: Option<&[u8]>)
        ensures
            match value {
                Some(bytes) => lookup(self@, name@, 0) == Some(bytes@),
                None => lookup(self@, name@, 0) is None,
            },
    {
        let mut at: usize = 0;
        while at < self.fields.len()
            invariant
                at <= self.fields@.len(),
                self@.len() == self.fields@.len(),
                lookup(self@, name@, 0) == lookup(self@, name@, at as int),
            decreases self.fields@.len() - at,
        {
            let field = &self.fields[at];
            proof {
                lemma_text_bytes_injective(field.0@, name@);
            }
            if same_bytes(field.0.as_str().as_bytes(), name.as_bytes()) {
                assert(self@[at as int].0 == name@);
                return Some(field.1.as_slice());
            }
            assert(self@[at as int].0 != name@);
            at += 1;
        }
        None
    }
}

} // verus!
