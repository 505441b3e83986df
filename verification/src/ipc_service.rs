//! The data carried between the engine and the conversion backend.
//!
//! The backend answers every text call with an optional composing text: a
//! ranked list of suggestions plus the canonical hiragana reading. The
//! engine keeps that answer as a [`Candidates`] value; a reply without a
//! composing text is a protocol violation.

use vstd::prelude::*;

use crate::error::EngineError;

verus! {

/// One ranked conversion returned by the backend.
#[derive(Clone, Debug, PartialEq)]
pub struct Suggestion {
    pub text: String,
    pub subtext: String,
    pub corresponding_count: i32,
}

/// The payload of a backend reply: suggestions plus the hiragana reading.
#[derive(Clone, Debug, PartialEq)]
pub struct ComposingText {
    pub suggestions: Vec<Suggestion>,
    pub hiragana: String,
}

/// The candidate set the engine works with: the suggestion columns side by
/// side, plus the hiragana reading shared by all of them.
#[derive(Clone, Debug, PartialEq)]
pub struct Candidates {
    pub texts: Vec<String>,
    pub sub_texts: Vec<String>,
    pub hiragana: String,
    pub corresponding_count: Vec<i32>,
}

/// The mathematical shape of a candidate set.
pub ghost struct CandidatesModel {
    pub texts: Seq<Seq<char>>,
    pub sub_texts: Seq<Seq<char>>,
    pub hiragana: Seq<char>,
    pub corresponding_count: Seq<int>,
}

impl View for Candidates {
    type V = CandidatesModel;

    open spec fn view(&self) -> CandidatesModel {
        CandidatesModel {
            texts: self.texts.deep_view(),
            sub_texts: self.sub_texts.deep_view(),
            hiragana: self.hiragana@,
            corresponding_count: self.corresponding_count@.map_values(|x: i32| x as int),
        }
    }
}

impl CandidatesModel {
    pub open spec fn empty() -> CandidatesModel {
        CandidatesModel {
            texts: Seq::empty(),
            sub_texts: Seq::empty(),
            hiragana: Seq::empty(),
            corresponding_count: Seq::empty(),
        }
    }

    /// A candidate set the engine can trust: the three columns have the
    /// same length, every corresponding count stays within the hiragana
    /// reading, and the list is small enough to index with the record's
    /// 32-bit selection index.
    pub open spec fn wf(self) -> bool {
        &&& self.texts.len() == self.sub_texts.len()
        &&& self.texts.len() == self.corresponding_count.len()
        &&& self.texts.len() <= 0x7fff_ffff
        &&& forall|i: int|
            0 <= i < self.corresponding_count.len() ==> 0 <= #[trigger] self.corresponding_count[i]
                <= self.hiragana.len()
    }
}

impl Candidates {
    /// The empty candidate set.
    pub fn empty() -> (r: Candidates)
        ensures
            r@ == CandidatesModel::empty(),
            r@.wf(),
    {
        let r = Candidates {
            texts: Vec::new(),
            sub_texts: Vec::new(),
            hiragana: String::new(),
            corresponding_count: Vec::new(),
        };
        proof {
            assert(r@.texts =~= Seq::<Seq<char>>::empty());
            assert(r@.sub_texts =~= Seq::<Seq<char>>::empty());
            assert(r@.corresponding_count =~= Seq::<int>::empty());
        }
        r
    }

    /// Whether the engine can trust this candidate set; see
    /// [`CandidatesModel::wf`].
    pub fn well_formed(&self) -> (b: bool)
        ensures
            b == self@.wf(),
    {
        if self.texts.len() != self.sub_texts.len() {
            return false;
        }
        if self.texts.len() != self.corresponding_count.len() {
            return false;
        }
        if self.texts.len() > 0x7fff_ffff {
            return false;
        }
        let hira_len = self.hiragana.as_str().unicode_len();
        let n = self.corresponding_count.len();
        let mut i: usize = 0;
        while i < n
            invariant
                n == self@.corresponding_count.len(),
                hira_len == self@.hiragana.len(),
                i <= n,
                forall|j: int|
                    0 <= j < i ==> 0 <= #[trigger] self@.corresponding_count[j]
                        <= self@.hiragana.len(),
            decreases n - i,
        {
            let cc = self.corresponding_count[i];
            if cc < 0 || cc as usize > hira_len {
                proof {
                    assert(self@.corresponding_count[i as int] == cc as int);
                    assert(!self@.wf());
                }
                return false;
            }
            proof {
                assert(self@.corresponding_count[i as int] == cc as int);
            }
            i = i + 1;
        }
        true
    }
}

/// An element-by-element copy of a vector of strings.
pub fn clone_string_vec(v: &Vec<String>) -> (r: Vec<String>)
    ensures
        r.deep_view() == v.deep_view(),
{
    let mut r: Vec<String> = Vec::new();
    let n = v.len();
    let mut i: usize = 0;
    while i < n
        invariant
            n == v@.len(),
            i <= n,
            r.deep_view().len() == i,
            forall|j: int| 0 <= j < i ==> #[trigger] r.deep_view()[j] == v.deep_view()[j],
        decreases n - i,
    {
        let ghost r0 = r.deep_view();
        r.push(v[i].clone());
        proof {
            assert(r.deep_view() =~= r0.push(v@[i as int]@));
        }
        i = i + 1;
    }
    proof {
        assert(r.deep_view() =~= v.deep_view());
    }
    r
}

/// An element-by-element copy of a vector of counters.
pub fn clone_i32_vec(v: &Vec<i32>) -> (r: Vec<i32>)
    ensures
        r@ == v@,
{
    let mut r: Vec<i32> = Vec::new();
    let n = v.len();
    let mut i: usize = 0;
    while i < n
        invariant
            n == v@.len(),
            i <= n,
            r@ == v@.take(i as int),
        decreases n - i,
    {
        r.push(v[i]);
        proof {
            assert(v@.take(i + 1) =~= v@.take(i as int).push(v@[i as int]));
        }
        i = i + 1;
    }
    proof {
        assert(v@.take(n as int) =~= v@);
    }
    r
}

impl Candidates {
    /// A copy of this candidate set, equal in the model.
    pub fn duplicate(&self) -> (r: Candidates)
        ensures
            r@ == self@,
    {
        let r = Candidates {
            texts: clone_string_vec(&self.texts),
            sub_texts: clone_string_vec(&self.sub_texts),
            hiragana: self.hiragana.clone(),
            corresponding_count: clone_i32_vec(&self.corresponding_count),
        };
        proof {
            assert(r@.corresponding_count =~= self@.corresponding_count);
        }
        r
    }
}

impl Default for Candidates {
    /// The empty candidate set.
    fn default() -> (r: Candidates)
        ensures
            r@ == CandidatesModel::empty(),
            r@.wf(),
    {
        Candidates::empty()
    }
}

/// Turn one backend reply into the engine's candidate set.
///
/// A reply without a composing text violates the backend protocol and is
/// rejected; otherwise the suggestion columns are copied over one by one.
pub fn candidates_from_response(composing_text: Option<ComposingText>) -> (r: Result<
    Candidates,
    EngineError,
>)
    ensures
        composing_text is None <==> r == Result::<Candidates, EngineError>::Err(
            EngineError::BackendProtocolViolation,
        ),
        composing_text matches Some(ct) ==> r matches Ok(c) && {
            &&& c@.texts.len() == ct.suggestions@.len()
            &&& c@.sub_texts.len() == ct.suggestions@.len()
            &&& c@.corresponding_count.len() == ct.suggestions@.len()
            &&& c@.hiragana == ct.hiragana@
            &&& forall|i: int|
                0 <= i < ct.suggestions@.len() ==> #[trigger] c@.texts[i]
                    == ct.suggestions@[i].text@
            &&& forall|i: int|
                0 <= i < ct.suggestions@.len() ==> #[trigger] c@.sub_texts[i]
                    == ct.suggestions@[i].subtext@
            &&& forall|i: int|
                0 <= i < ct.suggestions@.len() ==> #[trigger] c@.corresponding_count[i]
                    == ct.suggestions@[i].corresponding_count as int
        },
{
    let ct = match composing_text {
        Some(ct) => ct,
        None => {
            return Err(EngineError::BackendProtocolViolation);
        },
    };
    let mut texts: Vec<String> = Vec::new();
    let mut sub_texts: Vec<String> = Vec::new();
    let mut corresponding_count: Vec<i32> = Vec::new();
    let n = ct.suggestions.len();
    let mut i: usize = 0;
    while i < n
        invariant
            n == ct.suggestions@.len(),
            i <= n,
            texts.deep_view().len() == i,
            sub_texts.deep_view().len() == i,
            corresponding_count@.len() == i,
            forall|j: int| 0 <= j < i ==> #[trigger] texts.deep_view()[j] == ct.suggestions@[j].text@,
            forall|j: int|
                0 <= j < i ==> #[trigger] sub_texts.deep_view()[j] == ct.suggestions@[j].subtext@,
            forall|j: int|
                0 <= j < i ==> #[trigger] corresponding_count@[j]
                    == ct.suggestions@[j].corresponding_count,
        decreases n - i,
    {
        let ghost t0 = texts.deep_view();
        let ghost s0 = sub_texts.deep_view();
        let s = &ct.suggestions[i];
        texts.push(s.text.clone());
        sub_texts.push(s.subtext.clone());
        corresponding_count.push(s.corresponding_count);
        proof {
            assert(texts.deep_view() =~= t0.push(ct.suggestions@[i as int].text@));
            assert(sub_texts.deep_view() =~= s0.push(ct.suggestions@[i as int].subtext@));
        }
        i = i + 1;
    }
    let r = Candidates { texts, sub_texts, hiragana: ct.hiragana, corresponding_count };
    proof {
        assert(forall|j: int|
            0 <= j < r@.corresponding_count.len() ==> #[trigger] r@.corresponding_count[j]
                == r.corresponding_count@[j] as int);
    }
    Ok(r)
}

} // verus!
