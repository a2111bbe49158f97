//! The property store: one record per observable attribute, holding the last
//! published value, together with the diff-and-publish rule and the outbox of
//! notifications bound for the exposure layer.

use vstd::prelude::*;

use crate::model::{conforms, prop_value_eq, str_eq, PropName, PropValue, PropValueModel};

verus! {

/// Domain event: the device's queue changed; carries the textual form of the
/// new playlist snapshot.
#[derive(Clone, Debug)]
pub struct PlaylistUpdatedEvent {
    pub data: String,
}

impl PlaylistUpdatedEvent {
    pub fn new(data: String) -> (r: PlaylistUpdatedEvent)
        ensures
            r.data@ == data@,
    {
        PlaylistUpdatedEvent { data }
    }

    pub fn get_name(&self) -> (r: String)
        ensures
            r@ == "playlistUpdated"@,
    {
        "playlistUpdated".to_owned()
    }

    pub fn get_data(&self) -> (r: &String)
        ensures
            r@ == self.data@,
    {
        &self.data
    }
}

/// One message bound for the notification sink: either a property change or
/// a domain event.
#[derive(Clone, Debug)]
pub enum Notification {
    Property(PropName, PropValue),
    Event(PlaylistUpdatedEvent),
}

/// Mathematical model of a [`Notification`].
pub enum NotificationModel {
    Property(PropName, PropValueModel),
    Event(Seq<char>),
}

impl View for Notification {
    type V = NotificationModel;

    open spec fn view(&self) -> NotificationModel {
        match self {
            Notification::Property(name, value) => NotificationModel::Property(*name, value@),
            Notification::Event(e) => NotificationModel::Event(e.data@),
        }
    }
}

impl DeepView for Notification {
    type V = NotificationModel;

    open spec fn deep_view(&self) -> NotificationModel {
        self.view()
    }
}

/// Mathematical model of the store: the seven published values and the
/// sequence of notifications emitted so far.
#[verifier::ext_equal]
pub struct StoreModel {
    pub volume: PropValueModel,
    pub state: PropValueModel,
    pub repeat: PropValueModel,
    pub random: PropValueModel,
    pub artist: PropValueModel,
    pub album: PropValueModel,
    pub title: PropValueModel,
    pub outbox: Seq<NotificationModel>,
}

impl StoreModel {
    /// The value currently published under `name`.
    pub open spec fn value_of(self, name: PropName) -> PropValueModel {
        match name {
            PropName::Volume => self.volume,
            PropName::State => self.state,
            PropName::Repeat => self.repeat,
            PropName::Random => self.random,
            PropName::Artist => self.artist,
            PropName::Album => self.album,
            PropName::Title => self.title,
        }
    }

    /// The store with the record for `name` replaced by `v`.
    pub open spec fn with_value(self, name: PropName, v: PropValueModel) -> StoreModel {
        match name {
            PropName::Volume => StoreModel { volume: v, ..self },
            PropName::State => StoreModel { state: v, ..self },
            PropName::Repeat => StoreModel { repeat: v, ..self },
            PropName::Random => StoreModel { random: v, ..self },
            PropName::Artist => StoreModel { artist: v, ..self },
            PropName::Album => StoreModel { album: v, ..self },
            PropName::Title => StoreModel { title: v, ..self },
        }
    }

    /// The diff-and-publish rule: if `v` equals the stored value the store is
    /// untouched; otherwise the record is updated and exactly one
    /// notification carrying `(name, v)` is appended to the outbox.
    pub open spec fn publish(self, name: PropName, v: PropValueModel) -> StoreModel {
        if self.value_of(name) == v {
            self
        } else {
            let updated = self.with_value(name, v);
            StoreModel {
                outbox: updated.outbox.push(NotificationModel::Property(name, v)),
                ..updated
            }
        }
    }

    /// Every record holds a value of its declared shape.
    pub open spec fn wf(self) -> bool {
        &&& conforms(PropName::Volume, self.volume)
        &&& conforms(PropName::State, self.state)
        &&& conforms(PropName::Repeat, self.repeat)
        &&& conforms(PropName::Random, self.random)
        &&& conforms(PropName::Artist, self.artist)
        &&& conforms(PropName::Album, self.album)
        &&& conforms(PropName::Title, self.title)
    }
}

/// The device operation that a successful property write asks the caller to
/// perform against the device.
#[derive(Clone, Copy, PartialEq, Eq, Structural, Debug)]
pub enum WriteOp {
    SetVolume(i8),
    SetRepeat(bool),
    SetRandom(bool),
}

/// Rejection of a request before it reaches the device.
#[derive(Clone, Copy, PartialEq, Eq, Structural, Debug)]
pub enum ValidationError {
    /// The command name is not one the executor knows.
    UnknownCommand,
    /// A command that needs structured input was submitted without it.
    MissingInput,
    /// The structured input does not satisfy the command's schema.
    InvalidInput,
    /// The value's shape does not match the property's declared type.
    TypeMismatch,
    /// The value lies outside the property's declared range.
    OutOfRange,
    /// The property has no write-back hook.
    NotWritable,
}

/// What a write request must answer, given the property and the value: the
/// device operation to perform, or the validation error that rejects the
/// request before any device call.
pub open spec fn spec_write(name: PropName, v: PropValueModel) -> Result<WriteOp, ValidationError> {
    match name {
        PropName::Volume => match v {
            PropValueModel::Num(n) => if 0 <= n <= 100 {
                Ok(WriteOp::SetVolume(n as i8))
            } else {
                Err(ValidationError::OutOfRange)
            },
            _ => Err(ValidationError::TypeMismatch),
        },
        PropName::Repeat => match v {
            PropValueModel::Flag(b) => Ok(WriteOp::SetRepeat(b)),
            _ => Err(ValidationError::TypeMismatch),
        },
        PropName::Random => match v {
            PropValueModel::Flag(b) => Ok(WriteOp::SetRandom(b)),
            _ => Err(ValidationError::TypeMismatch),
        },
        _ => Err(ValidationError::NotWritable),
    }
}

/// The property, if any, that a wire name denotes.
pub open spec fn spec_prop_name(name: Seq<char>) -> Option<PropName> {
    if name == "volume"@ {
        Some(PropName::Volume)
    } else if name == "state"@ {
        Some(PropName::State)
    } else if name == "repeat"@ {
        Some(PropName::Repeat)
    } else if name == "random"@ {
        Some(PropName::Random)
    } else if name == "artist"@ {
        Some(PropName::Artist)
    } else if name == "album"@ {
        Some(PropName::Album)
    } else if name == "title"@ {
        Some(PropName::Title)
    } else {
        None
    }
}

/// Resolves the wire name of a property to its record's name.
pub fn prop_name_of(name: &str) -> (r: Option<PropName>)
    ensures
        r == spec_prop_name(name@),
{
    if str_eq(name, "volume") {
        Some(PropName::Volume)
    } else if str_eq(name, "state") {
        Some(PropName::State)
    } else if str_eq(name, "repeat") {
        Some(PropName::Repeat)
    } else if str_eq(name, "random") {
        Some(PropName::Random)
    } else if str_eq(name, "artist") {
        Some(PropName::Artist)
    } else if str_eq(name, "album") {
        Some(PropName::Album)
    } else if str_eq(name, "title") {
        Some(PropName::Title)
    } else {
        None
    }
}

/// Holds the last-published value of each observable attribute and the
/// outbox of notifications not yet handed to the sink.
#[derive(Debug)]
pub struct PropertyStore {
    volume: PropValue,
    state: PropValue,
    repeat: PropValue,
    random: PropValue,
    artist: PropValue,
    album: PropValue,
    title: PropValue,
    outbox: Vec<Notification>,
}

impl View for PropertyStore {
    type V = StoreModel;

    closed spec fn view(&self) -> StoreModel {
        StoreModel {
            volume: self.volume@,
            state: self.state@,
            repeat: self.repeat@,
            random: self.random@,
            artist: self.artist@,
            album: self.album@,
            title: self.title@,
            outbox: self.outbox.deep_view(),
        }
    }
}

impl PropertyStore {
    /// Builds the store with the given initial published values and an empty
    /// outbox: initial values are published silently, before any subscriber
    /// can observe the store.
    pub fn new(
        volume: PropValue,
        state: PropValue,
        repeat: PropValue,
        random: PropValue,
        artist: PropValue,
        album: PropValue,
        title: PropValue,
    ) -> (r: PropertyStore)
        requires
            conforms(PropName::Volume, volume@),
            conforms(PropName::State, state@),
            conforms(PropName::Repeat, repeat@),
            conforms(PropName::Random, random@),
            conforms(PropName::Artist, artist@),
            conforms(PropName::Album, album@),
            conforms(PropName::Title, title@),
        ensures
            r@ == (StoreModel {
                volume: volume@,
                state: state@,
                repeat: repeat@,
                random: random@,
                artist: artist@,
                album: album@,
                title: title@,
                outbox: Seq::<NotificationModel>::empty(),
            }),
            r@.wf(),
    {
        let r = PropertyStore {
            volume,
            state,
            repeat,
            random,
            artist,
            album,
            title,
            outbox: Vec::new(),
        };
        proof {
            assert(r@.outbox =~= Seq::<NotificationModel>::empty());
            assert(r@ =~= (StoreModel {
                volume: volume@,
                state: state@,
                repeat: repeat@,
                random: random@,
                artist: artist@,
                album: album@,
                title: title@,
                outbox: Seq::<NotificationModel>::empty(),
            }));
        }
        r
    }

    /// The last published value for `name`; never consults the device.
    pub fn read(&self, name: PropName) -> (r: PropValue)
        ensures
            r@ == self@.value_of(name),
    {
        match name {
            PropName::Volume => self.volume.duplicate(),
            PropName::State => self.state.duplicate(),
            PropName::Repeat => self.repeat.duplicate(),
            PropName::Random => self.random.duplicate(),
            PropName::Artist => self.artist.duplicate(),
            PropName::Album => self.album.duplicate(),
            PropName::Title => self.title.duplicate(),
        }
    }

    /// Compares `value` to the stored value for `name` by value equality; on
    /// a difference, updates the record and emits exactly one notification
    /// carrying `(name, value)`; on equality, does nothing.
    pub fn diff_and_publish(&mut self, name: PropName, value: PropValue)
        requires
            conforms(name, value@),
        ensures
            final(self)@ == old(self)@.publish(name, value@),
    {
        let changed = {
            let current = match name {
                PropName::Volume => &self.volume,
                PropName::State => &self.state,
                PropName::Repeat => &self.repeat,
                PropName::Random => &self.random,
                PropName::Artist => &self.artist,
                PropName::Album => &self.album,
                PropName::Title => &self.title,
            };
            !prop_value_eq(current, &value)
        };
        if changed {
            let stored = value.duplicate();
            match name {
                PropName::Volume => { self.volume = stored; },
                PropName::State => { self.state = stored; },
                PropName::Repeat => { self.repeat = stored; },
                PropName::Random => { self.random = stored; },
                PropName::Artist => { self.artist = stored; },
                PropName::Album => { self.album = stored; },
                PropName::Title => { self.title = stored; },
            }
            let ghost before = self.outbox.deep_view();
            self.outbox.push(Notification::Property(name, value));
            proof {
                assert(self.outbox.deep_view() =~= before.push(
                    NotificationModel::Property(name, value@),
                ));
                assert(final(self)@ =~= old(self)@.publish(name, value@));
            }
        }
    }

    /// Validates a remotely requested property write and, when it is
    /// acceptable, answers the device operation the caller must perform; the
    /// store itself is untouched, since the device is the source of truth
    /// and the accepted value arrives later through diff-and-publish.
    pub fn write(&self, name: PropName, value: &PropValue) -> (r: Result<
        WriteOp,
        ValidationError,
    >)
        ensures
            r == spec_write(name, value@),
    {
        match name {
            PropName::Volume => match value {
                PropValue::Num(n) => if 0 <= *n && *n <= 100 {
                    Ok(WriteOp::SetVolume(*n as i8))
                } else {
                    Err(ValidationError::OutOfRange)
                },
                _ => Err(ValidationError::TypeMismatch),
            },
            PropName::Repeat => match value {
                PropValue::Flag(b) => Ok(WriteOp::SetRepeat(*b)),
                _ => Err(ValidationError::TypeMismatch),
            },
            PropName::Random => match value {
                PropValue::Flag(b) => Ok(WriteOp::SetRandom(*b)),
                _ => Err(ValidationError::TypeMismatch),
            },
            _ => Err(ValidationError::NotWritable),
        }
    }

    /// Appends a domain event to the outbox.
    pub fn emit_event(&mut self, event: PlaylistUpdatedEvent)
        ensures
            final(self)@ == (StoreModel {
                outbox: old(self)@.outbox.push(NotificationModel::Event(event.data@)),
                ..old(self)@
            }),
    {
        let ghost before = self.outbox.deep_view();
        let ghost data = event.data@;
        self.outbox.push(Notification::Event(event));
        proof {
            assert(self.outbox.deep_view() =~= before.push(NotificationModel::Event(data)));
            assert(final(self)@ =~= (StoreModel {
                outbox: old(self)@.outbox.push(NotificationModel::Event(data)),
                ..old(self)@
            }));
        }
    }

    /// The notifications emitted so far and not yet drained.
    pub fn outbox(&self) -> (r: &Vec<Notification>)
        ensures
            r.deep_view() == self@.outbox,
    {
        &self.outbox
    }

    /// Hands the accumulated notifications to the caller and empties the
    /// outbox.
    pub fn take_outbox(&mut self) -> (r: Vec<Notification>)
        ensures
            r.deep_view() == old(self)@.outbox,
            final(self)@ == (StoreModel { outbox: Seq::<NotificationModel>::empty(), ..old(self)@ }),
    {
        let mut drained: Vec<Notification> = Vec::new();
        core::mem::swap(&mut drained, &mut self.outbox);
        proof {
            assert(self.outbox.deep_view() =~= Seq::<NotificationModel>::empty());
            assert(final(self)@ =~= (StoreModel {
                outbox: Seq::<NotificationModel>::empty(),
                ..old(self)@
            }));
        }
        drained
    }
}

/// Suppression law over call sequences: once `v` has been published under
/// `name`, publishing `v` again — immediately or after any publishes to
/// other records — changes nothing and emits no further notification.
pub proof fn lemma_publish_idempotent(m: StoreModel, name: PropName, v: PropValueModel)
    ensures
        m.publish(name, v).publish(name, v) == m.publish(name, v),
        forall|other: PropName, w: PropValueModel|
            other != name ==> #[trigger] m.publish(name, v).publish(other, w).value_of(name) == v,
{
}

/// The diff-and-publish law: a notification for `name` is appended if and
/// only if `v` differs by value equality from the immediately preceding
/// published value; in either case the published value afterwards is `v`,
/// and no other record moves.
pub proof fn lemma_publish_notification_iff(m: StoreModel, name: PropName, v: PropValueModel)
    ensures
        m.publish(name, v).value_of(name) == v,
        v == m.value_of(name) ==> m.publish(name, v) == m,
        v != m.value_of(name) ==> m.publish(name, v).outbox == m.outbox.push(
            NotificationModel::Property(name, v),
        ),
        forall|other: PropName|
            other != name ==> m.publish(name, v).value_of(other) == m.value_of(other),
{
}

} // verus!
