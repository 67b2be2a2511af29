//! Where the generator gets its entropy from.

use vstd::prelude::*;

verus! {

/// A source of entropy: asked for a number of bytes, it hands them out or
/// fails.
pub trait EntropySource: Sized {
    /// Whether the source, asked for `len` bytes as it is, may answer with
    /// `answer` and be `after` from then on. This is where a source says what
    /// it knows of itself. One that says nothing leaves every answer open, and
    /// that is right for a source of true entropy.
    open spec fn responds(&self, len: nat, answer: Option<Seq<u8>>, after: &Self) -> bool {
        true
    }

    /// Asks for `len` bytes. `None` says that the source failed.
    fn fill(&mut self, len: usize) -> (out: Option<Vec<u8>>)
        ensures
            old(self).responds(len as nat, answer_of(out), final(self)),
    ;
}

/// What a source handed out, as a sequence of bytes.
pub open spec fn answer_of(out: Option<Vec<u8>>) -> Option<Seq<u8>> {
    match out {
        Some(bytes) => Some(bytes@),
        None => None,
    }
}

/// One request made of a source, and what came of it.
pub struct Request<E> {
    /// The number of bytes asked for.
    pub len: nat,
    /// What the source handed out, if it did not fail.
    pub answer: Option<Seq<u8>>,
    /// The source as the request left it.
    pub left: E,
}

impl<E> Request<E> {
    /// What the generator takes from the request: the bytes, where the source
    /// handed out as many as were asked for, and nothing else.
    pub open spec fn entropy(self) -> Option<Seq<u8>> {
        match self.answer {
            Some(bytes) => if bytes.len() == self.len {
                Some(bytes)
            } else {
                None
            },
            None => None,
        }
    }
}

/// Whether `requests`, made one after the other of a source that was `first`
/// before them, are requests that the source could answer as it did.
pub open spec fn answered<E: EntropySource>(first: E, requests: Seq<Request<E>>) -> bool {
    forall|i: int|
        0 <= i < requests.len() ==> (if i == 0 {
            first
        } else {
            requests[i - 1].left
        }).responds(requests[i].len, (#[trigger] requests[i]).answer, &requests[i].left)
}

/// A fixed string of bytes and a place in it.
pub struct Tape {
    /// The string.
    pub data: Seq<u8>,
    /// The number of its bytes that have been handed out.
    pub offset: nat,
}

/// A source that hands out a fixed string piece by piece, from the start, and
/// fails once the string does not hold as many bytes as are asked for.
pub struct SelfTestEntropy {
    data: Vec<u8>,
    offset: usize,
}

impl View for SelfTestEntropy {
    type V = Tape;

    closed spec fn view(&self) -> Tape {
        Tape { data: self.data@, offset: self.offset as nat }
    }
}

impl SelfTestEntropy {
    /// A source that will hand out `data`, and stands at its start.
    pub fn new(data: &[u8]) -> (source: Self)
        ensures
            source@ == (Tape { data: data@, offset: 0 }),
    {
        let mut copy: Vec<u8> = Vec::new();
        let mut i: usize = 0;
        while i < data.len()
            invariant
                i <= data@.len(),
                copy@ == data@.take(i as int),
            decreases data@.len() - i,
        {
            copy.push(data[i]);
            i += 1;
        }
        assert(data@.take(data@.len() as int) =~= data@);
        SelfTestEntropy { data: copy, offset: 0 }
    }

    /// The number of bytes handed out so far.
    pub fn offset(&self) -> (offset: usize)
        ensures
            offset == self@.offset,
    {
        self.offset
    }

    /// Whether the string holds `len` more bytes.
    pub open spec fn holds(self, len: nat) -> bool {
        self@.offset + len <= self@.data.len()
    }

    /// What a request for `len` bytes brings: the next `len` bytes of the
    /// string, or nothing where it holds fewer.
    pub open spec fn output(self, len: nat) -> Option<Seq<u8>> {
        if self.holds(len) {
            Some(self@.data.subrange(self@.offset as int, (self@.offset + len) as int))
        } else {
            None
        }
    }

    /// The place in the string after a request for `len` bytes: `len` further
    /// on, or where it was if the string holds fewer.
    pub open spec fn next(self, len: nat) -> Tape {
        if self.holds(len) {
            Tape { data: self@.data, offset: self@.offset + len }
        } else {
            self@
        }
    }

}

/// Serves one request of the generator from the fixed string: the next `len`
/// bytes, or nothing where fewer are left.
pub fn ctr_drbg_self_test_entropy(source: &mut SelfTestEntropy, len: usize) -> (out: Option<
    Vec<u8>,
>)
    ensures
        answer_of(out) == old(source).output(len as nat),
        final(source)@ == old(source).next(len as nat),
{
    if source.offset > source.data.len() || len > source.data.len() - source.offset {
        return None;
    }
    let start: usize = source.offset;
    let mut bytes: Vec<u8> = Vec::new();
    let mut i: usize = 0;
    while i < len
        invariant
            i <= len,
            start + len <= source.data@.len() <= usize::MAX,
            bytes@ == source.data@.subrange(start as int, start + i),
        decreases len - i,
    {
        bytes.push(source.data[start + i]);
        i += 1;
    }
    source.offset = start + len;
    Some(bytes)
}

impl EntropySource for SelfTestEntropy {
    /// There is one answer to a request, `output`, and it leaves the source
    /// at `next`.
    open spec fn responds(&self, len: nat, answer: Option<Seq<u8>>, after: &Self) -> bool {
        answer == self.output(len) && after@ == self.next(len)
    }

    fn fill(&mut self, len: usize) -> (out: Option<Vec<u8>>) {
        ctr_drbg_self_test_entropy(self, len)
    }
}

} // verus!
