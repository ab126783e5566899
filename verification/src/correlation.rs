//! The correlation map: the builds that both backends report, gathered by
//! the commit they built.

use crate::drone::DroneBuildInfo;
use crate::text::{
    first_named, is_first_named, lemma_first_named_absent, lemma_first_named_found,
    lemma_first_named_none, str_eq,
};
use vstd::prelude::*;

verus! {

/// One of the two backend generations.
#[derive(Debug, Clone, Copy, PartialEq, Eq, Structural)]
pub enum Backend {
    Drone1,
    Drone2,
}

/// The builds of one commit, those of the first backend generation and
/// those of the second, each in the order in which they were admitted.
#[derive(Debug, Clone)]
pub struct CorrelationBucket {
    pub git_sha: String,
    pub drone1_builds: Vec<DroneBuildInfo>,
    pub drone2_builds: Vec<DroneBuildInfo>,
}

impl CorrelationBucket {
    /// At least one backend reported a build for the commit.
    pub open spec fn holds_a_build(self) -> bool {
        self.drone1_builds@.len() > 0 || self.drone2_builds@.len() > 0
    }

    /// The builds that one backend reported for the commit.
    pub open spec fn builds(self, backend: Backend) -> Seq<DroneBuildInfo> {
        match backend {
            Backend::Drone1 => self.drone1_builds@,
            Backend::Drone2 => self.drone2_builds@,
        }
    }
}

/// The buckets of all commits for which a build was admitted, in the order
/// in which the commits were first met. No two buckets are of the same
/// commit, and every bucket holds a build; a bucket is never removed, and
/// its builds only grow at the end.
#[derive(Debug, Clone)]
pub struct CorrelationMap {
    buckets: Vec<CorrelationBucket>,
}

/// The commits of a list of buckets, in list order.
pub open spec fn bucket_keys(buckets: Seq<CorrelationBucket>) -> Seq<Seq<char>> {
    Seq::new(buckets.len(), |i: int| buckets[i].git_sha@)
}

/// No two buckets of the list are of the same commit.
pub open spec fn distinct_keys(buckets: Seq<CorrelationBucket>) -> bool {
    forall|i: int, j: int|
        0 <= i < j < buckets.len() ==> (#[trigger] buckets[i]).git_sha@ != (
        #[trigger] buckets[j]).git_sha@
}

impl CorrelationMap {
    /// What every map holds that was made by `new` and changed by `record`:
    /// no two buckets are of the same commit, and every bucket holds a
    /// build on at least one side.
    pub open spec fn wf(self) -> bool {
        &&& distinct_keys(self.buckets())
        &&& forall|i: int|
            0 <= i < self.buckets().len() ==> (#[trigger] self.buckets()[i]).holds_a_build()
    }

    /// The buckets, in the order in which their commits were first
    /// recorded.
    pub closed spec fn buckets(self) -> Seq<CorrelationBucket> {
        self.buckets@
    }

    /// The commits that have a bucket, in the order in which they were
    /// first recorded.
    pub open spec fn keys(self) -> Seq<Seq<char>> {
        bucket_keys(self.buckets())
    }

    /// Whether the commit has a bucket.
    pub open spec fn contains(self, git_sha: Seq<char>) -> bool {
        first_named(self.keys(), git_sha) is Some
    }

    /// The builds that one backend reported for a commit, in the order in
    /// which they were recorded: none for a commit without a bucket.
    pub open spec fn builds(self, git_sha: Seq<char>, backend: Backend) -> Seq<DroneBuildInfo> {
        builds_in(self.buckets(), git_sha, backend)
    }

    /// The commits that have a bucket once a build of `git_sha` is
    /// recorded: it goes to the end if it is new.
    pub open spec fn keys_with(self, git_sha: Seq<char>) -> Seq<Seq<char>> {
        if self.contains(git_sha) {
            self.keys()
        } else {
            self.keys().push(git_sha)
        }
    }

    /// A map without buckets.
    pub fn new() -> (map: Self)
        ensures
            map.wf(),
            map.buckets() == Seq::<CorrelationBucket>::empty(),
    {
        CorrelationMap { buckets: Vec::new() }
    }

    /// How many commits have a bucket.
    pub fn len(&self) -> (count: usize)
        ensures
            count == self.buckets().len(),
    {
        self.buckets.len()
    }

    /// The bucket at one place, counted from 0 in the order in which the
    /// commits were first recorded.
    pub fn bucket(&self, at: usize) -> (bucket: &CorrelationBucket)
        requires
            at < self.buckets().len(),
        ensures
            *bucket == self.buckets()[at as int],
    {
        &self.buckets[at]
    }

    /// Where the bucket of a commit stands, if it has one.
    pub fn position(&self, git_sha: &str) -> (at: Option<usize>)
        ensures
            match at {
                Some(at) => first_named(self.keys(), git_sha@) == Some(at as int),
                None => !self.contains(git_sha@),
            },
    {
        let ghost keys = self.keys();
        let mut at: usize = 0;
        while at < self.buckets.len()
            invariant
                at <= self.buckets.len(),
                keys == bucket_keys(self.buckets@),
                forall|j: int| 0 <= j < at ==> keys[j] != git_sha@,
            decreases self.buckets.len() - at,
        {
            if str_eq(self.buckets[at].git_sha.as_str(), git_sha) {
                proof {
                    lemma_first_named_found(keys, git_sha@, at as int);
                }
                return Some(at);
            }
            at = at + 1;
        }
        proof {
            lemma_first_named_absent(keys, git_sha@);
        }
        None
    }

    /// The bucket of a commit, if it has one.
    pub fn get(&self, git_sha: &str) -> (bucket: Option<&CorrelationBucket>)
        ensures
            bucket is Some == self.contains(git_sha@),
            bucket matches Some(found) ==> {
                &&& found.git_sha@ == git_sha@
                &&& forall|backend: Backend|
                    #[trigger] found.builds(backend) == self.builds(git_sha@, backend)
            },
    {
        match self.position(git_sha) {
            Some(at) => Some(&self.buckets[at]),
            None => None,
        }
    }

    /// Finds the bucket of a commit, and makes an empty one at the end
    /// where the commit is new: `record` fills it at once. Gives the place
    /// of the bucket. Nothing else changes.
    fn touch(&mut self, git_sha: &str) -> (at: usize)
        requires
            distinct_keys(old(self).buckets()),
        ensures
            distinct_keys(final(self).buckets()),
            final(self).keys() == old(self).keys_with(git_sha@),
            first_named(final(self).keys(), git_sha@) == Some(at as int),
            forall|other: Seq<char>, backend: Backend|
                #[trigger] final(self).builds(other, backend) == old(self).builds(other, backend),
            forall|i: int|
                0 <= i < old(self).buckets().len() ==> #[trigger] final(self).buckets()[i] == old(
                    self,
                ).buckets()[i],
            old(self).contains(git_sha@) ==> final(self).buckets().len() == old(
                self,
            ).buckets().len(),
            !old(self).contains(git_sha@) ==> final(self).buckets().len() == old(
                self,
            ).buckets().len() + 1 && at == old(self).buckets().len(),
    {
        match self.position(git_sha) {
            Some(at) => at,
            None => {
                let ghost before = self.buckets@;
                let at = self.buckets.len();
                let bucket = CorrelationBucket {
                    git_sha: git_sha.to_owned(),
                    drone1_builds: Vec::new(),
                    drone2_builds: Vec::new(),
                };
                self.buckets.push(bucket);
                proof {
                    let after = self.buckets@;
                    lemma_first_named_none(bucket_keys(before), git_sha@);
                    assert(bucket_keys(after) == bucket_keys(before).push(git_sha@));
                    assert forall|i: int, j: int| 0 <= i < j < after.len() implies (
                    #[trigger] after[i]).git_sha@ != (#[trigger] after[j]).git_sha@ by {
                        if j == before.len() {
                            assert(bucket_keys(before)[i] != git_sha@);
                        } else {
                            assert(before[i].git_sha@ != before[j].git_sha@);
                        }
                    }
                    assert(is_first_named(bucket_keys(after), git_sha@, at as int));
                    lemma_first_named_found(bucket_keys(after), git_sha@, at as int);
                    assert forall|other: Seq<char>, backend: Backend|
                        #[trigger] builds_in(after, other, backend) == builds_in(
                            before,
                            other,
                            backend,
                        ) by {
                        lemma_builds_after_push(before, after[at as int], other, backend);
                    }
                }
                at
            },
        }
    }

    /// Files a build under its commit: at the end of the builds that the
    /// backend reported for it. A commit that is new gets its bucket at
    /// the end. Nothing else changes.
    pub fn record(&mut self, backend: Backend, git_sha: &str, info: DroneBuildInfo)
        requires
            old(self).wf(),
        ensures
            final(self).wf(),
            final(self).keys() == old(self).keys_with(git_sha@),
            final(self).builds(git_sha@, backend) == old(self).builds(git_sha@, backend).push(
                info,
            ),
            forall|other: Seq<char>, side: Backend|
                other != git_sha@ || side != backend ==> #[trigger] final(self).builds(other, side)
                    == old(self).builds(other, side),
    {
        let ghost start = *self;
        let at = self.touch(git_sha);
        let ghost touched = *self;
        let ghost before = self.buckets@;
        proof {
            assert(touched.builds(git_sha@, backend) == start.builds(git_sha@, backend));
            assert(is_first_named(bucket_keys(before), git_sha@, at as int));
            assert forall|i: int| 0 <= i < before.len() && i != at implies (
            #[trigger] before[i]).holds_a_build() by {
                assert(before[i] == start.buckets()[i]);
                assert(start.buckets()[i].holds_a_build());
            }
        }
        match backend {
            Backend::Drone1 => self.buckets[at].drone1_builds.push(info),
            Backend::Drone2 => self.buckets[at].drone2_builds.push(info),
        }
        proof {
            let after = self.buckets@;
            assert(after == before.update(at as int, after[at as int]));
            assert(bucket_keys(after) == bucket_keys(before));
            assert forall|i: int, j: int| 0 <= i < j < after.len() implies (
            #[trigger] after[i]).git_sha@ != (#[trigger] after[j]).git_sha@ by {
                assert(bucket_keys(after)[i] == bucket_keys(before)[i]);
                assert(bucket_keys(after)[j] == bucket_keys(before)[j]);
                assert(before[i].git_sha@ != before[j].git_sha@);
            }
            assert forall|other: Seq<char>, side: Backend|
                other != git_sha@ || side != backend implies #[trigger] self.builds(other, side)
                == start.builds(other, side) by {
                assert(touched.builds(other, side) == start.builds(other, side));
                match first_named(bucket_keys(before), other) {
                    Some(place) => {
                        assert(is_first_named(bucket_keys(before), other, place));
                    },
                    None => {},
                }
            }
        }
    }
}

/// The builds that one backend reported for a commit, in a list of buckets.
pub open spec fn builds_in(
    buckets: Seq<CorrelationBucket>,
    git_sha: Seq<char>,
    backend: Backend,
) -> Seq<DroneBuildInfo> {
    match first_named(bucket_keys(buckets), git_sha) {
        Some(at) => buckets[at].builds(backend),
        None => Seq::empty(),
    }
}

/// An empty bucket of a new commit at the end of a list changes the builds
/// of no commit.
proof fn lemma_builds_after_push(
    buckets: Seq<CorrelationBucket>,
    bucket: CorrelationBucket,
    git_sha: Seq<char>,
    backend: Backend,
)
    requires
        bucket.drone1_builds@.len() == 0,
        bucket.drone2_builds@.len() == 0,
        first_named(bucket_keys(buckets), bucket.git_sha@) is None,
    ensures
        builds_in(buckets.push(bucket), git_sha, backend) == builds_in(buckets, git_sha, backend),
{
    let before = bucket_keys(buckets);
    let after = bucket_keys(buckets.push(bucket));
    assert(after == before.push(bucket.git_sha@));
    match first_named(before, git_sha) {
        Some(at) => {
            assert(is_first_named(before, git_sha, at));
            assert(is_first_named(after, git_sha, at));
            lemma_first_named_found(after, git_sha, at);
        },
        None => {
            if git_sha == bucket.git_sha@ {
                lemma_first_named_none(before, git_sha);
                assert(is_first_named(after, git_sha, before.len() as int));
                lemma_first_named_found(after, git_sha, before.len() as int);
                assert(bucket.builds(backend) == Seq::<DroneBuildInfo>::empty());
            } else {
                lemma_first_named_none(before, git_sha);
                lemma_first_named_absent(after, git_sha);
            }
        },
    }
}

} // verus!
