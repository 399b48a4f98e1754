use vstd::prelude::*;
use crate::hub::{
    delivery, hub_wf, notified, received, subscribed, unsubscribed, Broadcaster, Delivery, HubModel,
};
use crate::page::{build_full_html, full_html, Fonts};
use crate::render::{markdown_html, render_markdown_to_html};
use crate::store::{
    lemma_versions_increase, publish_all, published, ContentRevision, ContentStore, RevisionModel,
};

verus! {

/// How long the polling watcher waits between looks at the file.
pub const POLL_INTERVAL_MS: u64 = 500;

/// The kind of a file-system event on the watched file.
#[derive(PartialEq, Eq, Structural, Clone, Copy, Debug)]
pub enum WatchEventKind {
    Modified,
    Other,
}

#[derive(PartialEq, Eq, Structural, Clone, Copy, Debug)]
pub struct WatchEvent {
    pub kind: WatchEventKind,
}

/// What the watcher does about one event.
#[derive(PartialEq, Eq, Structural, Clone, Copy, Debug)]
pub enum WatchAction {
    /// Read the file again and refresh the preview with what was read.
    Reread,
    Ignore,
}

/// Only a modification of the watched file is acted upon.
pub fn on_watch_event(event: &WatchEvent) -> (r: WatchAction)
    ensures
        r == (if event.kind == WatchEventKind::Modified {
            WatchAction::Reread
        } else {
            WatchAction::Ignore
        }),
{
    match event.kind {
        WatchEventKind::Modified => WatchAction::Reread,
        WatchEventKind::Other => WatchAction::Ignore,
    }
}

/// Where watch events come from.
#[derive(PartialEq, Eq, Structural, Clone, Copy, Debug)]
pub enum WatchBackend {
    /// The platform's own change notifications.
    Native,
    /// Looking at the file every `interval_ms` milliseconds.
    Poll { interval_ms: u64 },
}

/// The backend chosen at startup: polling under WSL2, whose native
/// notifications are unreliable, the native one elsewhere.
pub fn select_watch_backend(wsl2: bool) -> (r: WatchBackend)
    ensures
        wsl2 ==> r == (WatchBackend::Poll { interval_ms: POLL_INTERVAL_MS }),
        !wsl2 ==> r == WatchBackend::Native,
{
    if wsl2 {
        WatchBackend::Poll { interval_ms: POLL_INTERVAL_MS }
    } else {
        WatchBackend::Native
    }
}

/// The backend to try when `failed` cannot be set up: polling after the
/// native one, and nothing after polling.
pub fn fallback_backend(failed: WatchBackend) -> (r: Option<WatchBackend>)
    ensures
        failed == WatchBackend::Native ==> r == Some((WatchBackend::Poll { interval_ms: POLL_INTERVAL_MS })),
        failed is Poll ==> r is None,
{
    match failed {
        WatchBackend::Native => Some(WatchBackend::Poll { interval_ms: POLL_INTERVAL_MS }),
        WatchBackend::Poll { .. } => None,
    }
}

/// The title of a page rendered once: the file's name, or a placeholder
/// when the source came from standard input.
pub open spec fn page_title(file_name: Option<Seq<char>>) -> Seq<char> {
    match file_name {
        Some(name) => name,
        None => "New file"@,
    }
}

/// A page rendered once, without the reload client.
pub fn render_static_page(file_name: Option<&str>, source: &str, style: &str, fonts: &Fonts) -> (r:
    String)
    ensures
        r@ == full_html(
            page_title(
                match file_name {
                    Some(n) => Some(n@),
                    None => None,
                },
            ),
            markdown_html(source@),
            style@,
            *fonts,
            false,
        ),
{
    let body = render_markdown_to_html(source);
    match file_name {
        Some(name) => build_full_html(name, body.as_str(), style, fonts, false),
        None => build_full_html("New file", body.as_str(), style, fonts, false),
    }
}

/// The markup committed by successful refreshes with `sources`, in order.
pub open spec fn rendered_all(sources: Seq<Seq<char>>) -> Seq<Seq<char>> {
    sources.map_values(|s: Seq<char>| markdown_html(s))
}

/// Along a run of successful refreshes from revision `r`, a later state has
/// a strictly larger revision number than an earlier one; after the run the
/// number has grown by the number of refreshes and the preview holds the
/// rendering of the last source read.
pub proof fn lemma_refresh_run(r: RevisionModel, sources: Seq<Seq<char>>, i: int, j: int)
    requires
        0 <= i < j <= sources.len(),
    ensures
        publish_all(r, rendered_all(sources.take(i))).version < publish_all(
            r,
            rendered_all(sources.take(j)),
        ).version,
        publish_all(r, rendered_all(sources)).version == r.version + sources.len(),
        publish_all(r, rendered_all(sources)).html == markdown_html(sources.last()),
{
    let hs = rendered_all(sources);
    lemma_versions_increase(r, hs, i, j);
    assert(rendered_all(sources.take(i)) =~= hs.take(i));
    assert(rendered_all(sources.take(j)) =~= hs.take(j));
}

/// The state of a running preview: the current revision, the subscribers
/// waiting for changes, and what every page carries.
pub struct LivePreview {
    store: ContentStore,
    hub: Broadcaster,
    file_name: String,
    style: String,
    fonts: Fonts,
}

impl LivePreview {
    pub closed spec fn wf(&self) -> bool {
        self.hub.wf()
    }

    pub closed spec fn revision(&self) -> RevisionModel {
        self.store@
    }

    pub closed spec fn hub(&self) -> HubModel {
        self.hub@
    }

    pub closed spec fn title(&self) -> Seq<char> {
        self.file_name@
    }

    pub closed spec fn style(&self) -> Seq<char> {
        self.style@
    }

    pub closed spec fn fonts(&self) -> Fonts {
        self.fonts
    }

    pub proof fn lemma_hub_wf(&self)
        requires
            self.wf(),
        ensures
            hub_wf(self.hub()),
    {
        self.hub.lemma_model_wf();
    }

    /// Starts serving `source`, rendered, as revision 1, with nobody
    /// subscribed yet; each subscriber's queue holds up to `capacity` signals.
    pub fn new(file_name: String, source: &str, style: String, fonts: Fonts, capacity: usize) -> (r:
        Self)
        requires
            capacity > 0,
        ensures
            r.wf(),
            r.revision() == (RevisionModel { html: markdown_html(source@), version: 1 }),
            r.hub().queues == Map::<u64, nat>::empty(),
            r.hub().capacity == capacity,
            r.hub().next_id == 0,
            r.title() == file_name@,
            r.style() == style@,
            r.fonts() == fonts,
    {
        LivePreview {
            store: ContentStore::new(render_markdown_to_html(source)),
            hub: Broadcaster::new(capacity),
            file_name,
            style,
            fonts,
        }
    }

    /// Installs `html` as the next revision and signals every subscriber.
    /// Once revision numbers run out nothing changes and nobody is signalled.
    pub fn commit(&mut self, html: String) -> (r: Option<u64>)
        requires
            old(self).wf(),
        ensures
            final(self).wf(),
            final(self).title() == old(self).title(),
            final(self).style() == old(self).style(),
            final(self).fonts() == old(self).fonts(),
            old(self).revision().version < u64::MAX ==> {
                &&& r == Some((old(self).revision().version + 1) as u64)
                &&& final(self).revision() == published(old(self).revision(), html@)
                &&& final(self).hub() == notified(old(self).hub())
            },
            old(self).revision().version >= u64::MAX ==> {
                &&& r is None
                &&& final(self).revision() == old(self).revision()
                &&& final(self).hub() == old(self).hub()
            },
    {
        let r = self.store.publish(html);
        if r.is_some() {
            self.hub.notify();
        }
        r
    }

    /// Handles the outcome of reading the watched file: `None` for a failed
    /// read, which changes nothing and signals nobody; otherwise the text
    /// is rendered and committed.
    pub fn refresh(&mut self, source: Option<&str>) -> (r: Option<u64>)
        requires
            old(self).wf(),
        ensures
            final(self).wf(),
            final(self).title() == old(self).title(),
            final(self).style() == old(self).style(),
            final(self).fonts() == old(self).fonts(),
            source is None ==> {
                &&& r is None
                &&& final(self).revision() == old(self).revision()
                &&& final(self).hub() == old(self).hub()
            },
            source matches Some(text) ==> {
                &&& old(self).revision().version < u64::MAX ==> {
                    &&& r == Some((old(self).revision().version + 1) as u64)
                    &&& final(self).revision() == published(old(self).revision(), markdown_html(text@))
                    &&& final(self).hub() == notified(old(self).hub())
                }
                &&& old(self).revision().version >= u64::MAX ==> {
                    &&& r is None
                    &&& final(self).revision() == old(self).revision()
                    &&& final(self).hub() == old(self).hub()
                }
            },
    {
        match source {
            None => None,
            Some(text) => self.commit(render_markdown_to_html(text)),
        }
    }

    /// The current revision, whole: never a mix of two.
    pub fn snapshot(&self) -> (r: ContentRevision)
        ensures
            r@ == self.revision(),
    {
        self.store.snapshot()
    }

    /// The page for the current revision, with the reload client.
    pub fn page(&self) -> (r: String)
        ensures
            r@ == full_html(self.title(), self.revision().html, self.style(), self.fonts(), true),
    {
        let current = self.store.snapshot();
        build_full_html(
            self.file_name.as_str(),
            current.html(),
            self.style.as_str(),
            &self.fonts,
            true,
        )
    }

    /// Registers a viewer for change signals; see `Broadcaster::subscribe`.
    pub fn subscribe(&mut self) -> (r: Option<u64>)
        requires
            old(self).wf(),
        ensures
            final(self).wf(),
            final(self).revision() == old(self).revision(),
            final(self).hub() == subscribed(old(self).hub()),
            old(self).hub().next_id < u64::MAX ==> r == Some(old(self).hub().next_id as u64),
            old(self).hub().next_id >= u64::MAX ==> r is None,
    {
        self.hub.subscribe()
    }

    /// Removes a viewer; returns whether it was registered.
    pub fn unsubscribe(&mut self, id: u64) -> (r: bool)
        requires
            old(self).wf(),
        ensures
            final(self).wf(),
            final(self).revision() == old(self).revision(),
            final(self).hub() == unsubscribed(old(self).hub(), id),
            r == old(self).hub().queues.contains_key(id),
    {
        self.hub.unsubscribe(id)
    }

    /// Takes the next signal for viewer `id`, if one is pending.
    pub fn recv(&mut self, id: u64) -> (r: Delivery)
        requires
            old(self).wf(),
        ensures
            final(self).wf(),
            final(self).revision() == old(self).revision(),
            r == delivery(old(self).hub(), id),
            final(self).hub() == received(old(self).hub(), id),
    {
        self.hub.recv(id)
    }
}

} // verus!
