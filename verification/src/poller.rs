//! The bridge core driven by the state poller: the property store together
//! with the last observed playlist snapshot, and the cycle that turns one
//! round of device readings into property notifications and playlist
//! events.  Each reading arrives as `Some` value or as `None` for a failed
//! device call; a failure in one group never blocks the others.

use vstd::prelude::*;

use crate::model::{
    state_label, state_text, CurrentItem, CurrentItemModel, DeviceStatus, PropName, PropValue,
    PropValueModel,
};
use crate::store::{NotificationModel, PlaylistUpdatedEvent, PropertyStore, StoreModel};

verus! {

/// Mathematical model of the bridge core.
#[verifier::ext_equal]
pub struct CoreModel {
    pub store: StoreModel,
    pub last_playlist: Seq<char>,
}

/// The playlist rule: a snapshot textually equal to the last observed one
/// changes nothing; a different one becomes the remembered snapshot and
/// appends exactly one playlist-changed event carrying its text.
pub open spec fn spec_note_playlist(m: CoreModel, p: Seq<char>) -> CoreModel {
    if p == m.last_playlist {
        m
    } else {
        CoreModel {
            store: StoreModel {
                outbox: m.store.outbox.push(NotificationModel::Event(p)),
                ..m.store
            },
            last_playlist: p,
        }
    }
}

/// Publishing of a successfully read current item: artist, album and title
/// are diffed and published in that order.
pub open spec fn spec_apply_item(m: StoreModel, item: CurrentItemModel) -> StoreModel {
    m.publish(PropName::Artist, PropValueModel::Text(item.artist)).publish(
        PropName::Album,
        PropValueModel::Text(item.album),
    ).publish(PropName::Title, PropValueModel::Text(item.title))
}

/// Publishing of the first status read: volume, then playback state.
pub open spec fn spec_apply_primary(m: StoreModel, s: DeviceStatus) -> StoreModel {
    m.publish(PropName::Volume, PropValueModel::Num(s.volume as int)).publish(
        PropName::State,
        PropValueModel::Text(Some(state_label(s.state))),
    )
}

/// Publishing of the second status read: the repeat, then the random flag.
pub open spec fn spec_apply_flags(m: StoreModel, s: DeviceStatus) -> StoreModel {
    m.publish(PropName::Repeat, PropValueModel::Flag(s.repeat)).publish(
        PropName::Random,
        PropValueModel::Flag(s.random),
    )
}

/// One poller cycle over the four independent read groups; a group whose
/// reading is absent is skipped for this cycle only.
pub open spec fn spec_poll_cycle(
    m: CoreModel,
    playlist: Option<Seq<char>>,
    item: Option<CurrentItemModel>,
    status_first: Option<DeviceStatus>,
    status_second: Option<DeviceStatus>,
) -> CoreModel {
    let after_playlist = match playlist {
        Some(p) => spec_note_playlist(m, p),
        None => m,
    };
    let after_item = match item {
        Some(it) => spec_apply_item(after_playlist.store, it),
        None => after_playlist.store,
    };
    let after_primary = match status_first {
        Some(s) => spec_apply_primary(after_item, s),
        None => after_item,
    };
    let after_flags = match status_second {
        Some(s) => spec_apply_flags(after_primary, s),
        None => after_primary,
    };
    CoreModel { store: after_flags, last_playlist: after_playlist.last_playlist }
}

/// The initial core: every record published from the first status and
/// current-item readings, an empty outbox, and no snapshot observed yet.
pub open spec fn spec_init(status: DeviceStatus, item: CurrentItemModel) -> CoreModel {
    CoreModel {
        store: StoreModel {
            volume: PropValueModel::Num(status.volume as int),
            state: PropValueModel::Text(Some(state_label(status.state))),
            repeat: PropValueModel::Flag(status.repeat),
            random: PropValueModel::Flag(status.random),
            artist: PropValueModel::Text(item.artist),
            album: PropValueModel::Text(item.album),
            title: PropValueModel::Text(item.title),
            outbox: Seq::empty(),
        },
        last_playlist: Seq::empty(),
    }
}

/// The property store together with the last observed playlist snapshot.
/// The snapshot moves only in step with a playlist-changed event, so it is
/// reachable only through the methods here; the store itself is open to
/// the command-completion paths.
#[derive(Debug)]
pub struct BridgeCore {
    pub store: PropertyStore,
    last_playlist: String,
}

impl View for BridgeCore {
    type V = CoreModel;

    closed spec fn view(&self) -> CoreModel {
        CoreModel { store: self.store@, last_playlist: self.last_playlist@ }
    }
}

impl BridgeCore {
    /// Builds the core from the first readings taken at startup.
    pub fn new(status: DeviceStatus, item: CurrentItem) -> (r: BridgeCore)
        ensures
            r@ == spec_init(status, item@),
    {
        let store = PropertyStore::new(
            PropValue::Num(status.volume as i64),
            PropValue::Text(Some(state_text(status.state))),
            PropValue::Flag(status.repeat),
            PropValue::Flag(status.random),
            PropValue::Text(item.artist),
            PropValue::Text(item.album),
            PropValue::Text(item.title),
        );
        let r = BridgeCore { store, last_playlist: String::new() };
        proof {
            assert(r@ =~= spec_init(status, item@));
        }
        r
    }

    /// The last observed playlist snapshot.
    pub fn last_playlist(&self) -> (r: &String)
        ensures
            r@ == self@.last_playlist,
    {
        &self.last_playlist
    }

    /// Records a freshly computed playlist snapshot, emitting a
    /// playlist-changed event exactly when it differs textually from the
    /// last observed one.
    pub fn note_playlist(&mut self, snapshot: String)
        ensures
            final(self)@ == spec_note_playlist(old(self)@, snapshot@),
    {
        if !self.last_playlist.eq(&snapshot) {
            let data = snapshot.clone();
            self.last_playlist = snapshot;
            self.store.emit_event(PlaylistUpdatedEvent::new(data));
        }
    }

    /// One poller cycle: each reading that succeeded is pushed through the
    /// diff-and-publish rule, in the fixed group order; absent readings
    /// are skipped without affecting the remaining groups.
    pub fn poll_cycle(
        &mut self,
        playlist: Option<String>,
        item: Option<CurrentItem>,
        status_first: Option<DeviceStatus>,
        status_second: Option<DeviceStatus>,
    )
        ensures
            final(self)@ == spec_poll_cycle(
                old(self)@,
                playlist.deep_view(),
                item.deep_view(),
                status_first,
                status_second,
            ),
    {
        match playlist {
            Some(p) => self.note_playlist(p),
            None => {},
        }
        match item {
            Some(it) => {
                self.store.diff_and_publish(PropName::Artist, PropValue::Text(it.artist));
                self.store.diff_and_publish(PropName::Album, PropValue::Text(it.album));
                self.store.diff_and_publish(PropName::Title, PropValue::Text(it.title));
            },
            None => {},
        }
        match status_first {
            Some(s) => {
                self.store.diff_and_publish(PropName::Volume, PropValue::Num(s.volume as i64));
                self.store.diff_and_publish(
                    PropName::State,
                    PropValue::Text(Some(state_text(s.state))),
                );
            },
            None => {},
        }
        match status_second {
            Some(s) => {
                self.store.diff_and_publish(PropName::Repeat, PropValue::Flag(s.repeat));
                self.store.diff_and_publish(PropName::Random, PropValue::Flag(s.random));
            },
            None => {},
        }
    }
}

/// Failure-isolation law: in a cycle where only the current-item read
/// succeeded, artist, album and title are published exactly as if that
/// group ran alone, and nothing else moves.
pub proof fn lemma_poll_failure_isolated(m: CoreModel, item: CurrentItemModel)
    ensures
        spec_poll_cycle(m, None, Some(item), None, None) == (CoreModel {
            store: spec_apply_item(m.store, item),
            last_playlist: m.last_playlist,
        }),
{
}

/// Notifications are never lost: a poller cycle only appends to the
/// outbox, leaving every notification already emitted in place.
pub proof fn lemma_poll_cycle_outbox_monotonic(
    m: CoreModel,
    playlist: Option<Seq<char>>,
    item: Option<CurrentItemModel>,
    status_first: Option<DeviceStatus>,
    status_second: Option<DeviceStatus>,
)
    ensures
        ({
            let after = spec_poll_cycle(m, playlist, item, status_first, status_second);
            &&& after.store.outbox.len() >= m.store.outbox.len()
            &&& forall|i: int|
                0 <= i < m.store.outbox.len() ==> after.store.outbox[i] == m.store.outbox[i]
        }),
{
}

/// Playlist-event law: identical consecutive snapshots produce zero
/// playlist-changed events; a change in the text produces exactly one
/// event carrying the new snapshot, which becomes the remembered one.
pub proof fn lemma_playlist_event_iff(m: CoreModel, p: Seq<char>)
    ensures
        p == m.last_playlist ==> spec_note_playlist(m, p) == m,
        p != m.last_playlist ==> spec_note_playlist(m, p).store.outbox == m.store.outbox.push(
            NotificationModel::Event(p),
        ),
        p != m.last_playlist ==> spec_note_playlist(m, p).last_playlist == p,
        spec_note_playlist(m, p).store.volume == m.store.volume,
        spec_note_playlist(m, p).store.state == m.store.state,
        spec_note_playlist(m, p).store.repeat == m.store.repeat,
        spec_note_playlist(m, p).store.random == m.store.random,
        spec_note_playlist(m, p).store.artist == m.store.artist,
        spec_note_playlist(m, p).store.album == m.store.album,
        spec_note_playlist(m, p).store.title == m.store.title,
{
}

} // verus!
