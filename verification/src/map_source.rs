//! Sources of map bytes and the record of the calls made of them.
use vstd::prelude::*;

verus! {

/// A producer of map bytes, such as an open file. `read` fills a prefix of
/// `target` and returns how many bytes it wrote; zero means end of file.
/// Nothing is assumed of what it writes or of the count it reports: counts
/// larger than `target` are rejected by the reader. A slice keeps its length
/// through `&mut`, and that is all its contract says.
pub trait MapSource {
    fn read(&mut self, target: &mut [u8]) -> (r: Result<usize, &'static str>)
        ensures
            final(target)@.len() == old(target)@.len(),
    ;
}

/// One call of a source: the length of the slice it was handed, the
/// slice's contents when the call returned, and what it returned.
pub struct ReadCall {
    pub offered: nat,
    pub contents: Seq<u8>,
    pub result: Result<usize, &'static str>,
}

/// A source together with the log of the calls made of it.
pub struct Recorded<S: MapSource> {
    source: S,
    calls: Ghost<Seq<ReadCall>>,
}

impl<S: MapSource> Recorded<S> {
    /// The calls made of the source so far, oldest first.
    pub closed spec fn calls(self) -> Seq<ReadCall> {
        self.calls@
    }

    /// `source`, with no call made yet.
    pub fn new(source: S) -> (r: Self)
        ensures
            r.calls() == Seq::<ReadCall>::empty(),
    {
        Recorded { source, calls: Ghost(Seq::empty()) }
    }

    /// Hands `target` to the source and logs the call.
    pub fn read(&mut self, target: &mut [u8]) -> (r: Result<usize, &'static str>)
        ensures
            final(target)@.len() == old(target)@.len(),
            final(self).calls() == old(self).calls().push(
                ReadCall { offered: old(target)@.len(), contents: final(target)@, result: r },
            ),
    {
        let ghost offered = target@.len();
        let r = self.source.read(target);
        self.calls = Ghost(
            self.calls@.push(ReadCall { offered, contents: target@, result: r }),
        );
        r
    }
}

} // verus!
