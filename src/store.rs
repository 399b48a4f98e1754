use vstd::prelude::*;

verus! {

/// What a revision holds, seen mathematically.
pub ghost struct RevisionModel {
    pub html: Seq<char>,
    pub version: nat,
}

/// The revision that replaces `r` when `html` is committed.
pub open spec fn published(r: RevisionModel, html: Seq<char>) -> RevisionModel {
    RevisionModel { html, version: r.version + 1 }
}

/// The revision reached from `r` by committing each of `htmls` in order.
pub open spec fn publish_all(r: RevisionModel, htmls: Seq<Seq<char>>) -> RevisionModel
    decreases htmls.len(),
{
    if htmls.len() == 0 {
        r
    } else {
        published(publish_all(r, htmls.drop_last()), htmls.last())
    }
}

/// One rendered document together with its revision number.
pub struct ContentRevision {
    html: String,
    version: u64,
}

impl View for ContentRevision {
    type V = RevisionModel;

    closed spec fn view(&self) -> RevisionModel {
        RevisionModel { html: self.html@, version: self.version as nat }
    }
}

impl Clone for ContentRevision {
    fn clone(&self) -> (r: Self)
        ensures
            r@ == self@,
    {
        ContentRevision { html: self.html.clone(), version: self.version }
    }
}

impl ContentRevision {
    pub fn html(&self) -> (r: &str)
        ensures
            r@ == self@.html,
    {
        self.html.as_str()
    }

    pub fn version(&self) -> (r: u64)
        ensures
            r as nat == self@.version,
    {
        self.version
    }
}

/// Holds exactly one revision, replaced as a whole on each commit.
pub struct ContentStore {
    current: ContentRevision,
}

impl View for ContentStore {
    type V = RevisionModel;

    closed spec fn view(&self) -> RevisionModel {
        self.current@
    }
}

impl ContentStore {
    /// A store whose first revision, number 1, is the initial render.
    pub fn new(html: String) -> (r: Self)
        ensures
            r@ == (RevisionModel { html: html@, version: 1 }),
    {
        ContentStore { current: ContentRevision { html, version: 1 } }
    }

    /// Installs `html` as the next revision and returns its number. The
    /// numbers are `u64`: once the last one is reached nothing more is
    /// installed, and the store keeps what it had.
    pub fn publish(&mut self, html: String) -> (r: Option<u64>)
        ensures
            old(self)@.version < u64::MAX ==> {
                &&& r == Some((old(self)@.version + 1) as u64)
                &&& final(self)@ == published(old(self)@, html@)
            },
            old(self)@.version >= u64::MAX ==> r is None && final(self)@ == old(self)@,
    {
        if self.current.version < u64::MAX {
            let version = self.current.version + 1;
            self.current = ContentRevision { html, version };
            Some(version)
        } else {
            None
        }
    }

    /// The current revision, whole.
    pub fn snapshot(&self) -> (r: ContentRevision)
        ensures
            r@ == self@,
    {
        self.current.clone()
    }

    pub fn version(&self) -> (r: u64)
        ensures
            r as nat == self@.version,
    {
        self.current.version
    }
}

/// Revision numbers only grow: along any run of commits, a later state
/// carries a strictly larger number than an earlier one, and the last
/// commit's markup is what the store then holds.
pub proof fn lemma_versions_increase(r: RevisionModel, htmls: Seq<Seq<char>>, i: int, j: int)
    requires
        0 <= i < j <= htmls.len(),
    ensures
        publish_all(r, htmls.take(i)).version < publish_all(r, htmls.take(j)).version,
        publish_all(r, htmls).version == r.version + htmls.len(),
        htmls.len() > 0 ==> publish_all(r, htmls).html == htmls.last(),
{
    lemma_publish_all_version(r, htmls);
    lemma_publish_all_version(r, htmls.take(i));
    lemma_publish_all_version(r, htmls.take(j));
}

proof fn lemma_publish_all_version(r: RevisionModel, htmls: Seq<Seq<char>>)
    ensures
        publish_all(r, htmls).version == r.version + htmls.len(),
    decreases htmls.len(),
{
    if htmls.len() > 0 {
        lemma_publish_all_version(r, htmls.drop_last());
    }
}

/// Committing the same markup twice is harmless: the store then holds that
/// markup, and each commit raised the revision number by one.
pub proof fn lemma_republish_same(r: RevisionModel, html: Seq<char>)
    ensures
        published(published(r, html), html).html == published(r, html).html,
        published(published(r, html), html).html == html,
        published(published(r, html), html).version == published(r, html).version + 1,
        published(r, html).version == r.version + 1,
{
}

} // verus!
