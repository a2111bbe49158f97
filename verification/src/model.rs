//! Plain data types shared by the whole library: the device snapshot types,
//! the names and typed values of the observable properties, and their
//! mathematical models.

use vstd::prelude::*;

verus! {

/// Playback state of the device transport.
#[derive(Clone, Copy, PartialEq, Eq, Structural, Debug)]
pub enum PlaybackState {
    Stopped,
    Playing,
    Paused,
}

/// Immutable snapshot of the device's reported status, produced fresh on
/// every status query and never mutated in place.
#[derive(Clone, Copy, PartialEq, Eq, Structural, Debug)]
pub struct DeviceStatus {
    pub state: PlaybackState,
    pub volume: i8,
    pub repeat: bool,
    pub random: bool,
}

/// The item currently active on the device; each field may independently be
/// absent, and all are absent when nothing is loaded.
#[derive(Clone, Debug)]
pub struct CurrentItem {
    pub artist: Option<String>,
    pub album: Option<String>,
    pub title: Option<String>,
}

/// Mathematical model of a [`CurrentItem`].
pub struct CurrentItemModel {
    pub artist: Option<Seq<char>>,
    pub album: Option<Seq<char>>,
    pub title: Option<Seq<char>>,
}

impl View for CurrentItem {
    type V = CurrentItemModel;

    open spec fn view(&self) -> CurrentItemModel {
        CurrentItemModel {
            artist: self.artist.deep_view(),
            album: self.album.deep_view(),
            title: self.title.deep_view(),
        }
    }
}

impl DeepView for CurrentItem {
    type V = CurrentItemModel;

    open spec fn deep_view(&self) -> CurrentItemModel {
        self.view()
    }
}

/// Name of one observable attribute; one property record exists per name.
#[derive(Clone, Copy, PartialEq, Eq, Structural, Debug)]
pub enum PropName {
    Volume,
    State,
    Repeat,
    Random,
    Artist,
    Album,
    Title,
}

/// A published property value: a number, a flag, or optional text.
#[derive(Clone, Debug)]
pub enum PropValue {
    Num(i64),
    Flag(bool),
    Text(Option<String>),
}

/// Mathematical model of a [`PropValue`].
pub enum PropValueModel {
    Num(int),
    Flag(bool),
    Text(Option<Seq<char>>),
}

impl View for PropValue {
    type V = PropValueModel;

    open spec fn view(&self) -> PropValueModel {
        match self {
            PropValue::Num(n) => PropValueModel::Num(*n as int),
            PropValue::Flag(b) => PropValueModel::Flag(*b),
            PropValue::Text(t) => PropValueModel::Text(t.deep_view()),
        }
    }
}

impl DeepView for PropValue {
    type V = PropValueModel;

    open spec fn deep_view(&self) -> PropValueModel {
        self.view()
    }
}

/// True when the value has the shape that the named property declares:
/// a number for the volume, a flag for the repeat and random modes, and
/// text for the rest.
pub open spec fn conforms(name: PropName, v: PropValueModel) -> bool {
    match name {
        PropName::Volume => v is Num,
        PropName::Repeat => v is Flag,
        PropName::Random => v is Flag,
        PropName::State => v is Text,
        PropName::Artist => v is Text,
        PropName::Album => v is Text,
        PropName::Title => v is Text,
    }
}

/// The textual label under which a playback state is published.
pub open spec fn state_label(s: PlaybackState) -> Seq<char> {
    match s {
        PlaybackState::Stopped => "stop"@,
        PlaybackState::Playing => "play"@,
        PlaybackState::Paused => "pause"@,
    }
}

/// Renders the textual label of a playback state.
pub fn state_text(s: PlaybackState) -> (r: String)
    ensures
        r@ == state_label(s),
{
    match s {
        PlaybackState::Stopped => "stop".to_owned(),
        PlaybackState::Playing => "play".to_owned(),
        PlaybackState::Paused => "pause".to_owned(),
    }
}

/// Copies optional text; the result carries the same characters.
pub fn clone_opt_text(t: &Option<String>) -> (r: Option<String>)
    ensures
        r.deep_view() == t.deep_view(),
{
    match t {
        Some(s) => Some(s.clone()),
        None => None,
    }
}

/// Decides whether two pieces of optional text carry the same characters.
pub fn opt_text_eq(a: &Option<String>, b: &Option<String>) -> (r: bool)
    ensures
        r == (a.deep_view() == b.deep_view()),
{
    match (a, b) {
        (None, None) => true,
        (Some(x), Some(y)) => x.eq(y),
        _ => false,
    }
}

/// Decides whether two strings carry the same characters.
pub fn str_eq(a: &str, b: &str) -> (r: bool)
    ensures
        r == (a@ == b@),
{
    let x = a.to_owned();
    let y = b.to_owned();
    x.eq(&y)
}

impl PropValue {
    /// Copies the value; the result has the same model as the original.
    pub fn duplicate(&self) -> (r: PropValue)
        ensures
            r@ == self@,
    {
        match self {
            PropValue::Num(n) => PropValue::Num(*n),
            PropValue::Flag(b) => PropValue::Flag(*b),
            PropValue::Text(t) => PropValue::Text(clone_opt_text(t)),
        }
    }
}

/// Decides value equality of two property values, structurally on their
/// models; this is the comparison the diff-and-publish rule uses.
pub fn prop_value_eq(a: &PropValue, b: &PropValue) -> (r: bool)
    ensures
        r == (a@ == b@),
{
    match (a, b) {
        (PropValue::Num(x), PropValue::Num(y)) => *x == *y,
        (PropValue::Flag(x), PropValue::Flag(y)) => *x == *y,
        (PropValue::Text(x), PropValue::Text(y)) => opt_text_eq(x, y),
        _ => false,
    }
}

} // verus!
