//! Organization summaries, built from the organizations' heads.
use vstd::prelude::*;

verus! {

/// The identifying part of an organization.
#[derive(Debug)]
pub struct OrganizationHead {
    /// The organization's UUID, as a 128-bit number.
    pub id: u128,
    pub name: String,
    pub cpe_key: Option<String>,
    pub website: Option<String>,
}

/// An organization as listed in search results.
#[derive(Debug)]
pub struct OrganizationSummary {
    pub head: OrganizationHead,
}

impl OrganizationSummary {
    /// The summary of one organization, given how building its head went.
    pub fn from_entity<E>(head: Result<OrganizationHead, E>) -> (res: Result<Self, E>)
        ensures
            match head {
                Ok(h) => res matches Ok(s) && s.head == h,
                Err(e) => res == Err::<Self, E>(e),
            },
    {
        match head {
            Ok(head) => Ok(OrganizationSummary { head }),
            Err(e) => Err(e),
        }
    }

    /// The summaries of several organizations, in order, given how building
    /// each head went; the first failure is the answer when there is one.
    pub fn from_entities<E>(heads: Vec<Result<OrganizationHead, E>>) -> (res: Result<Vec<Self>, E>)
        ensures
            res is Ok <==> forall|i: int| 0 <= i < heads@.len() ==> (#[trigger] heads@[i]) is Ok,
            res matches Ok(v) ==> v@.len() == heads@.len() && forall|i: int|
                0 <= i < heads@.len() ==> heads@[i] == Ok::<OrganizationHead, E>(#[trigger] v@[i].head),
            res matches Err(e) ==> exists|i: int|
                0 <= i < heads@.len() && heads@[i] == Err::<OrganizationHead, E>(e) && forall|j: int|
                    0 <= j < i ==> (#[trigger] heads@[j]) is Ok,
    {
        let ghost input = heads@;
        let mut summaries: Vec<OrganizationSummary> = Vec::new();
        for head in it: heads.into_iter()
            invariant
                it.seq() == input,
                summaries@.len() == it.index(),
                forall|i: int| 0 <= i < it.index() ==> input[i] == Ok::<OrganizationHead, E>(#[trigger] summaries@[i].head),
        {
            let ghost i = it.index();
            match OrganizationSummary::from_entity(head) {
                Ok(summary) => summaries.push(summary),
                Err(e) => {
                    assert(forall|j: int| 0 <= j < i ==> (#[trigger] input[j]) is Ok) by {
                        assert forall|j: int| 0 <= j < i implies (#[trigger] input[j]) is Ok by {
                            assert(input[j] == Ok::<OrganizationHead, E>(summaries@[j].head));
                        }
                    }
                    return Err(e);
                },
            }
        }
        assert forall|i: int| 0 <= i < input.len() implies (#[trigger] input[i]) is Ok by {
            assert(input[i] == Ok::<OrganizationHead, E>(summaries@[i].head));
        }
        Ok(summaries)
    }
}

/// Builds the summaries of `total` organizations one at a time, in order, and
/// stops at the first organization whose head could not be built.
pub struct SummaryCollector<E> {
    pub total: usize,
    pub summaries: Vec<OrganizationSummary>,
    pub failure: Option<E>,
}

impl<E> SummaryCollector<E> {
    pub fn new(total: usize) -> (c: Self)
        ensures
            c.total == total,
            c.summaries@.len() == 0,
            c.failure is None,
    {
        SummaryCollector { total, summaries: Vec::new(), failure: None }
    }

    /// The position of the organization to convert next; `None` once all
    /// are converted or one has failed.
    pub fn next_index(&self) -> (next: Option<usize>)
        ensures
            next == (if self.failure is None && self.summaries@.len() < self.total {
                Some(self.summaries@.len() as usize)
            } else {
                None
            }),
    {
        if self.failure.is_none() && self.summaries.len() < self.total {
            Some(self.summaries.len())
        } else {
            None
        }
    }

    /// Takes the outcome of building the head of the organization that
    /// `next_index` named.
    pub fn accept(&mut self, head: Result<OrganizationHead, E>)
        requires
            old(self).failure is None,
            old(self).summaries@.len() < old(self).total,
        ensures
            final(self).total == old(self).total,
            match head {
                Ok(h) => final(self).failure is None && final(self).summaries@ == old(self).summaries@.push(
                    OrganizationSummary { head: h },
                ),
                Err(e) => final(self).failure == Some(e) && final(self).summaries@ == old(self).summaries@,
            },
    {
        match head {
            Ok(head) => self.summaries.push(OrganizationSummary { head }),
            Err(e) => self.failure = Some(e),
        }
    }

    /// The summaries, or the failure that stopped the collection.
    pub fn finish(self) -> (res: Result<Vec<OrganizationSummary>, E>)
        ensures
            match self.failure {
                Some(e) => res == Err::<Vec<OrganizationSummary>, E>(e),
                None => res matches Ok(v) && v@ == self.summaries@,
            },
    {
        match self.failure {
            Some(e) => Err(e),
            None => Ok(self.summaries),
        }
    }
}

} // verus!
