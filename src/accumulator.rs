use vstd::prelude::*;

verus! {

/// The `application/x-www-form-urlencoded` text of a list of pairs: each
/// name and value escaped, joined by `=`, and the pairs joined by `&`.
pub uninterp spec fn urlencoded(pairs: Seq<PairText>) -> Seq<char>;

/// The text of one name/value pair.
pub type PairText = (Seq<char>, Seq<char>);

/// Ordered, append-only log of name/value pairs, encoded into
/// `application/x-www-form-urlencoded` text when finished.
pub struct Accumulator {
    pairs: Vec<(String, String)>,
}

impl View for Accumulator {
    type V = Seq<PairText>;

    closed spec fn view(&self) -> Seq<PairText> {
        self.pairs@.map_values(|p: (String, String)| (p.0@, p.1@))
    }
}

impl Accumulator {
    pub fn new() -> (r: Accumulator)
        ensures
            r@ == Seq::<PairText>::empty(),
    {
        let r = Accumulator { pairs: Vec::new() };
        assert(r@ =~= Seq::<PairText>::empty());
        r
    }

    /// Appends the pair `(name, value)` after those already there.
    pub fn append_pair(&mut self, name: &str, value: &str)
        ensures
            final(self)@ == old(self)@.push((name@, value@)),
    {
        self.pairs.push((name.to_owned(), value.to_owned()));
        assert(final(self)@ =~= old(self)@.push((name@, value@)));
    }

    /// The pairs appended so far, in order.
    pub fn pairs(&self) -> (r: &Vec<(String, String)>)
        ensures
            r@.len() == self@.len(),
            forall|i: int| 0 <= i < r@.len() ==> (#[trigger] r@[i]).0@ == self@[i].0 && r@[i].1@ == self@[i].1,
    {
        &self.pairs
    }

    /// The number of pairs appended so far.
    pub fn len(&self) -> (r: usize)
        ensures
            r == self@.len(),
    {
        self.pairs.len()
    }

    /// The encoded text of all pairs appended so far.
    pub fn finish(&self) -> (r: String)
        ensures
            r@ == urlencoded(self@),
            self@.len() == 0 ==> r@.len() == 0,
    {
        encode_pairs(&self.pairs)
    }
}

/// Relies on form_urlencoded::Serializer: a serializer over an empty
/// `String`, given the pairs in order and finished, yields text that depends
/// on the pairs alone, and no text for no pairs.
#[verifier::external_body]
fn encode_pairs(pairs: &Vec<(String, String)>) -> (r: String)
    ensures
        r@ == urlencoded(pairs@.map_values(|p: (String, String)| (p.0@, p.1@))),
        pairs@.len() == 0 ==> r@.len() == 0,
{
    let mut serializer = form_urlencoded::Serializer::new(String::new());
    serializer.extend_pairs(pairs.iter());
    serializer.finish()
}

} // verus!
