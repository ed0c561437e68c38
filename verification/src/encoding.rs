//! The code-unit widths in which a column of a position may be counted.

use vstd::prelude::*;

verus! {

/// A position encoding: the code unit in which columns are counted.
/// Lines are counted the same way under every encoding.
#[derive(Debug, Clone, Copy, PartialEq, Eq, Hash, Structural)]
pub enum Encoding {
    /// Columns count UTF-8 code units (bytes).
    UTF8,
    /// Columns count UTF-16 code units. Every client supports this one.
    UTF16,
    /// Columns count UTF-32 code units, that is characters.
    UTF32,
}

/// The encoding of positions.
pub type PositionEncoding = Encoding;

/// The wire name of an encoding.
pub open spec fn encoding_name(e: Encoding) -> Seq<char> {
    match e {
        Encoding::UTF8 => "utf-8"@,
        Encoding::UTF16 => "utf-16"@,
        Encoding::UTF32 => "utf-32"@,
    }
}

/// Whether a wire name denotes one of the three encodings.
pub open spec fn is_encoding_name(name: Seq<char>) -> bool {
    name == "utf-8"@ || name == "utf-16"@ || name == "utf-32"@
}

/// The encoding that a wire name denotes, if any.
pub open spec fn encoding_of_name(name: Seq<char>) -> Option<Encoding> {
    if name == "utf-8"@ {
        Some(Encoding::UTF8)
    } else if name == "utf-16"@ {
        Some(Encoding::UTF16)
    } else if name == "utf-32"@ {
        Some(Encoding::UTF32)
    } else {
        None
    }
}

/// Reading the wire name of an encoding gives the encoding back.
pub proof fn lemma_name_round_trip(e: Encoding)
    ensures
        encoding_of_name(encoding_name(e)) == Some(e),
        is_encoding_name(encoding_name(e)),
{
    reveal_strlit("utf-8");
    reveal_strlit("utf-16");
    reveal_strlit("utf-32");
    assert("utf-8"@.len() == 5);
    assert("utf-16"@.len() == 6);
    assert("utf-32"@.len() == 6);
    assert("utf-16"@[4] == '1');
    assert("utf-32"@[4] == '3');
}

/// The order in which the server prefers the encodings: first UTF-8,
/// then UTF-32, last UTF-16.
pub open spec fn preferred_order() -> Seq<Encoding> {
    seq![Encoding::UTF8, Encoding::UTF32, Encoding::UTF16]
}

/// The first encoding of `order`, from index `from` on, that `client`
/// also lists; the default where there is none.
pub open spec fn first_supported(order: Seq<Encoding>, client: Seq<Encoding>, from: int) -> Encoding
    decreases order.len() - from,
{
    if from < 0 || from >= order.len() {
        Encoding::UTF16
    } else if client.contains(order[from]) {
        order[from]
    } else {
        first_supported(order, client, from + 1)
    }
}

/// The encoding that a session uses, given what the client declared.
pub open spec fn negotiated(client: Seq<Encoding>) -> Encoding {
    first_supported(preferred_order(), client, 0)
}

impl Encoding {
    /// The encoding used when a client declares none.
    #[must_use]
    pub fn default() -> (e: Self)
        ensures
            e == Encoding::UTF16,
    {
        Encoding::UTF16
    }

    /// The wire name of this encoding.
    #[must_use]
    pub fn as_str(&self) -> (s: &'static str)
        ensures
            s@ == encoding_name(*self),
    {
        match self {
            Encoding::UTF8 => "utf-8",
            Encoding::UTF16 => "utf-16",
            Encoding::UTF32 => "utf-32",
        }
    }

    /// The protocol's value for this encoding, which is its wire name.
    #[must_use]
    pub fn into_lsp(self) -> (s: &'static str)
        ensures
            s@ == encoding_name(self),
    {
        self.as_str()
    }

    /// Reads a wire name. `None` for a name outside the three encodings.
    #[must_use]
    pub fn parse(name: &str) -> (r: Option<Self>)
        ensures
            r == encoding_of_name(name@),
            r.is_some() <==> is_encoding_name(name@),
    {
        let owned = name.to_owned();
        if owned == "utf-8".to_owned() {
            Some(Encoding::UTF8)
        } else if owned == "utf-16".to_owned() {
            Some(Encoding::UTF16)
        } else if owned == "utf-32".to_owned() {
            Some(Encoding::UTF32)
        } else {
            None
        }
    }

    /// The encoding that a protocol value denotes. A value outside the three
    /// encodings is a configuration error that callers rule out beforehand.
    #[must_use]
    pub fn from_lsp(name: &str) -> (e: Self)
        requires
            is_encoding_name(name@),
        ensures
            Some(e) == encoding_of_name(name@),
            encoding_name(e) == name@,
    {
        match Encoding::parse(name) {
            Some(e) => e,
            None => Encoding::UTF16,
        }
    }

    /// Whether `list` holds `self`.
    pub fn is_in(&self, list: &Vec<Encoding>) -> (found: bool)
        ensures
            found == list@.contains(*self),
    {
        let mut i: usize = 0;
        while i < list.len()
            invariant
                i <= list.len(),
                forall|j: int| 0 <= j < i ==> list@[j] != *self,
            decreases list.len() - i,
        {
            if list[i] == *self {
                return true;
            }
            i += 1;
        }
        false
    }

    /// Picks the session's encoding: the first of UTF-8, UTF-32, UTF-16
    /// that the client lists, and UTF-16 where the client lists none.
    #[must_use]
    pub fn negotiate(client: &Vec<Encoding>) -> (e: Self)
        ensures
            e == negotiated(client@),
            client@.len() == 0 ==> e == Encoding::UTF16,
            client@.len() > 0 ==> client@.contains(e),
            client@.contains(Encoding::UTF8) ==> e == Encoding::UTF8,
    {
        proof {
            reveal_with_fuel(first_supported, 4);
            if client@.len() > 0 {
                let c = client@[0];
                assert(client@.contains(c));
            }
        }
        if Encoding::UTF8.is_in(client) {
            Encoding::UTF8
        } else if Encoding::UTF32.is_in(client) {
            Encoding::UTF32
        } else {
            Encoding::UTF16
        }
    }
}

impl Default for Encoding {
    fn default() -> (e: Self)
        ensures
            e == Encoding::UTF16,
    {
        Encoding::UTF16
    }
}

} // verus!
