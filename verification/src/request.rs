//! Passive request-side value types: the enumerated method verb, URL scheme
//! and host, an ordered header multimap, and the metadata head of a request.

use vstd::prelude::*;

verus! {

/// The scheme part of a request URL.
#[derive(PartialEq, Eq, Structural, Clone, Copy, Debug)]
pub enum Scheme {
    Http,
    Https,
}

/// An IP address, held as plain numeric parts.
#[derive(PartialEq, Eq, Structural, Clone, Copy, Debug)]
pub enum IpAddr {
    V4(u8, u8, u8, u8),
    V6(u16, u16, u16, u16, u16, u16, u16, u16),
}

/// The host part of a requested URL: a DNS name or an IP address.
#[derive(PartialEq, Eq, Clone, Debug)]
pub enum Host {
    Name(String),
    Ip(IpAddr),
}

/// The request method, such as GET, POST, PUT, DELETE or PATCH.
#[derive(PartialEq, Eq, Hash, Clone, Copy, Debug)]
pub enum Method {
    Get,
    Post,
    Put,
    Delete,
    Head,
    Connect,
    Options,
    Trace,
    Patch,
    Purge,
    Other(&'static str),
}

/// The values held by a header multimap under one name, in insertion order.
pub open spec fn values_of(entries: Seq<(Seq<char>, Seq<char>)>, name: Seq<char>) -> Seq<Seq<char>>
    decreases entries.len(),
{
    if entries.len() == 0 {
        Seq::empty()
    } else if entries.last().0 == name {
        values_of(entries.drop_last(), name).push(entries.last().1)
    } else {
        values_of(entries.drop_last(), name)
    }
}

/// An ordered multimap of header names to values: entries keep their
/// insertion order and a name may repeat. Name canonicalization (such as
/// lowercasing) is the transport's concern; lookups compare names exactly.
#[derive(Clone, Debug)]
pub struct Headers {
    entries: Vec<(String, String)>,
}

impl View for Headers {
    type V = Seq<(Seq<char>, Seq<char>)>;

    closed spec fn view(&self) -> Seq<(Seq<char>, Seq<char>)> {
        self.entries.deep_view()
    }
}

impl Headers {
    /// An empty header map.
    pub fn new() -> (r: Headers)
        ensures
            r@ == Seq::<(Seq<char>, Seq<char>)>::empty(),
    {
        Headers { entries: Vec::new() }
    }

    /// The number of entries.
    pub fn len(&self) -> (r: usize)
        ensures
            r == self@.len(),
    {
        self.entries.len()
    }

    /// Appends one name/value entry after all existing ones.
    pub fn add(&mut self, name: String, value: String)
        ensures
            final(self)@ == old(self)@.push((name@, value@)),
    {
        let ghost pre = self@;
        self.entries.push((name, value));
        proof {
            assert(self@ =~= pre.push((self.entries@.last().0@, self.entries@.last().1@)));
        }
    }

    /// Every entry, in insertion order.
    pub fn all(&self) -> (r: &Vec<(String, String)>)
        ensures
            r.deep_view() == self@,
    {
        &self.entries
    }

    /// The values recorded under `name`, in order, or `None` when no entry
    /// carries that name.
    pub fn find(&self, name: &String) -> (r: Option<Vec<String>>)
        ensures
            match r {
                Some(v) => v.deep_view() == values_of(self@, name@) && values_of(self@, name@).len() > 0,
                None => values_of(self@, name@).len() == 0,
            },
    {
        let mut out: Vec<String> = Vec::new();
        let mut i: usize = 0;
        while i < self.entries.len()
            invariant
                i <= self.entries.len(),
                out.deep_view() == values_of(self@.take(i as int), name@),
            decreases self.entries.len() - i,
        {
            let ghost pre = out.deep_view();
            if self.entries[i].0 == *name {
                out.push(self.entries[i].1.clone());
            }
            proof {
                let sub = self@.take(i + 1 as int);
                assert(sub.drop_last() =~= self@.take(i as int));
                assert(sub.last() == self@[i as int]);
                if self@[i as int].0 == name@ {
                    assert(out.deep_view() =~= pre.push(self.entries[i as int].1@));
                }
            }
            i = i + 1;
        }
        proof {
            assert(self@.take(self.entries.len() as int) =~= self@);
        }
        if out.len() == 0 {
            None
        } else {
            Some(out)
        }
    }

    /// Whether some entry carries the given name.
    pub fn has(&self, name: &String) -> (r: bool)
        ensures
            r == (values_of(self@, name@).len() > 0),
    {
        match self.find(name) {
            Some(_) => true,
            None => false,
        }
    }
}

/// The metadata of a request: everything but the body. The extractor passes
/// the head through unchanged while it materializes the body.
#[derive(Clone, Debug)]
pub struct RequestHead {
    pub method: Method,
    pub uri: String,
    pub headers: Headers,
}

} // verus!
