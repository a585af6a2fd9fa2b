//! What the PulseAudio listener decides: which server events make the device
//! list or the application's device stale, and what it announces when it
//! rereads them.
use vstd::prelude::*;
use crate::models::media::{AudioSource, MediaSessionState, same_opt_source};
use crate::platforms::linux::audio_endpoints::{default_source_volume, default_volume};
use crate::platforms::windows::audio_watchers::{AppSourceWatcher, announces};

verus! {

/// The facility of a PulseAudio subscription event, as far as the listener
/// tells them apart.
#[derive(Clone, Copy, Debug, PartialEq, Eq, Structural)]
pub enum PulseFacility {
    Sink,
    Server,
    SinkInput,
    Other,
}

/// The operation of a PulseAudio subscription event.
#[derive(Clone, Copy, Debug, PartialEq, Eq, Structural)]
pub enum PulseOperation {
    New,
    Changed,
    Removed,
}

/// An event that changes volumes or the default device: a sink or the server changed.
pub open spec fn is_volume_event(f: PulseFacility, o: PulseOperation) -> bool {
    (f == PulseFacility::Sink || f == PulseFacility::Server) && o == PulseOperation::Changed
}

/// An event that may move the application to another device: a playback
/// stream came, changed or left.
pub open spec fn is_app_route_event(f: PulseFacility, o: PulseOperation) -> bool {
    f == PulseFacility::SinkInput
}

/// Whether the device list is stale after a run of events, from `stale`.
pub open spec fn volume_stale_after(stale: bool, events: Seq<(PulseFacility, PulseOperation)>) -> bool
    decreases events.len(),
{
    if events.len() == 0 {
        stale
    } else {
        volume_stale_after(stale, events.drop_last()) || is_volume_event(events.last().0, events.last().1)
    }
}

/// Whether the application's device is stale after a run of events, from `stale`.
pub open spec fn app_source_stale_after(stale: bool, events: Seq<(PulseFacility, PulseOperation)>) -> bool
    decreases events.len(),
{
    if events.len() == 0 {
        stale
    } else {
        app_source_stale_after(stale, events.drop_last()) || is_app_route_event(events.last().0, events.last().1)
    }
}

/// After a run of events the system volume is read again exactly when it was
/// already due or some sink or the server changed in the run (a change of the
/// output volume or of the default device); other events, and the coming and
/// going of sinks, leave it as it was. The application's device is read again
/// exactly when it was due or some playback stream came, changed or left.
pub proof fn lemma_events_mark_stale(volume: bool, app: bool, events: Seq<(PulseFacility, PulseOperation)>)
    ensures
        volume_stale_after(volume, events) == (volume || exists|i: int| 0 <= i < events.len()
            && ((#[trigger] events[i]).0 == PulseFacility::Sink || events[i].0 == PulseFacility::Server)
            && events[i].1 == PulseOperation::Changed),
        app_source_stale_after(app, events) == (app || exists|i: int| 0 <= i < events.len()
            && (#[trigger] events[i]).0 == PulseFacility::SinkInput),
    decreases events.len(),
{
    if events.len() > 0 {
        let prev = events.drop_last();
        lemma_events_mark_stale(volume, app, prev);
        assert(events.last() == events[events.len() - 1]);
        if exists|i: int| 0 <= i < prev.len()
            && ((#[trigger] prev[i]).0 == PulseFacility::Sink || prev[i].0 == PulseFacility::Server)
            && prev[i].1 == PulseOperation::Changed {
            let i = choose|i: int| 0 <= i < prev.len()
                && ((#[trigger] prev[i]).0 == PulseFacility::Sink || prev[i].0 == PulseFacility::Server)
                && prev[i].1 == PulseOperation::Changed;
            assert(events[i] == prev[i]);
        }
        if exists|i: int| 0 <= i < events.len()
            && ((#[trigger] events[i]).0 == PulseFacility::Sink || events[i].0 == PulseFacility::Server)
            && events[i].1 == PulseOperation::Changed {
            let i = choose|i: int| 0 <= i < events.len()
                && ((#[trigger] events[i]).0 == PulseFacility::Sink || events[i].0 == PulseFacility::Server)
                && events[i].1 == PulseOperation::Changed;
            if i < prev.len() {
                assert(prev[i] == events[i]);
            }
        }
        if exists|i: int| 0 <= i < prev.len() && (#[trigger] prev[i]).0 == PulseFacility::SinkInput {
            let i = choose|i: int| 0 <= i < prev.len() && (#[trigger] prev[i]).0 == PulseFacility::SinkInput;
            assert(events[i] == prev[i]);
        }
        if exists|i: int| 0 <= i < events.len() && (#[trigger] events[i]).0 == PulseFacility::SinkInput {
            let i = choose|i: int| 0 <= i < events.len() && (#[trigger] events[i]).0 == PulseFacility::SinkInput;
            if i < prev.len() {
                assert(prev[i] == events[i]);
            }
        }
    }
}

/// The listener's memory between two turns of the main loop.
pub struct VolumeListener {
    is_dev: bool,
    volume_dirty: bool,
    app_source_dirty: bool,
    app_source: AppSourceWatcher,
}

impl VolumeListener {
    pub closed spec fn volume_stale(self) -> bool {
        self.volume_dirty
    }

    pub closed spec fn app_source_stale(self) -> bool {
        self.app_source_dirty
    }

    pub closed spec fn last_app_source(self) -> Option<Option<AudioSource>> {
        self.app_source.last()
    }

    pub closed spec fn dev(self) -> bool {
        self.is_dev
    }

    /// A listener that has read nothing yet: both the device list and the
    /// application's device are stale.
    pub fn new(is_dev: bool) -> (r: VolumeListener)
        ensures
            r.volume_stale(),
            r.app_source_stale(),
            r.last_app_source() is None,
            r.dev() == is_dev,
    {
        VolumeListener { is_dev, volume_dirty: true, app_source_dirty: true, app_source: AppSourceWatcher::new(0) }
    }

    pub fn is_dev(&self) -> (r: bool)
        ensures
            r == self.dev(),
    {
        self.is_dev
    }

    /// Takes a subscription event.
    pub fn on_event(&mut self, facility: PulseFacility, op: PulseOperation)
        ensures
            final(self).volume_stale() == (old(self).volume_stale() || is_volume_event(facility, op)),
            final(self).app_source_stale() == (old(self).app_source_stale() || is_app_route_event(facility, op)),
            ((facility == PulseFacility::Sink || facility == PulseFacility::Server) && op == PulseOperation::Changed)
                ==> final(self).volume_stale(),
            (facility == PulseFacility::SinkInput) ==> final(self).app_source_stale(),
            !((facility == PulseFacility::Sink || facility == PulseFacility::Server) && op == PulseOperation::Changed)
                ==> final(self).volume_stale() == old(self).volume_stale(),
            facility != PulseFacility::SinkInput ==> final(self).app_source_stale() == old(self).app_source_stale(),
            final(self).last_app_source() == old(self).last_app_source(),
            final(self).dev() == old(self).dev(),
    {
        if (facility == PulseFacility::Sink || facility == PulseFacility::Server) && op == PulseOperation::Changed {
            self.volume_dirty = true;
        }
        if facility == PulseFacility::SinkInput {
            self.app_source_dirty = true;
        }
    }

    /// Whether the device list is to be read again; it is fresh afterwards.
    pub fn take_volume_dirty(&mut self) -> (r: bool)
        ensures
            r == old(self).volume_stale(),
            !final(self).volume_stale(),
            final(self).app_source_stale() == old(self).app_source_stale(),
            final(self).last_app_source() == old(self).last_app_source(),
            final(self).dev() == old(self).dev(),
    {
        let r = self.volume_dirty;
        self.volume_dirty = false;
        r
    }

    /// Whether the application's device is to be read again; it is fresh afterwards.
    pub fn take_app_source_dirty(&mut self) -> (r: bool)
        ensures
            r == old(self).app_source_stale(),
            !final(self).app_source_stale(),
            final(self).volume_stale() == old(self).volume_stale(),
            final(self).last_app_source() == old(self).last_app_source(),
            final(self).dev() == old(self).dev(),
    {
        let r = self.app_source_dirty;
        self.app_source_dirty = false;
        r
    }

    /// Takes a fresh device list: the system volume becomes that of the first
    /// default device, when there is one; the list is then announced.
    pub fn on_sources(&self, state: &mut MediaSessionState, sources: &Vec<AudioSource>)
        ensures
            final(state).spec_system_volume() == (match default_source_volume(sources@) {
                Some(v) => v,
                None => old(state).spec_system_volume(),
            }),
            final(state).sessions_view() == old(state).sessions_view(),
            final(state).suppressed_view() == old(state).suppressed_view(),
    {
        if let Some(v) = default_volume(sources) {
            state.set_system_volume(v);
        }
    }

    /// Takes the application's device as read now; true when it is to be
    /// announced (see `AppSourceWatcher::observe`).
    pub fn on_app_source(&mut self, current: &Option<AudioSource>) -> (r: bool)
        ensures
            r == announces(old(self).last_app_source(), *current),
            r ==> final(self).last_app_source() == Some(*current),
            !r ==> final(self).last_app_source() == old(self).last_app_source(),
            final(self).volume_stale() == old(self).volume_stale(),
            final(self).app_source_stale() == old(self).app_source_stale(),
            final(self).dev() == old(self).dev(),
    {
        self.app_source.observe(current)
    }
}

} // verus!
