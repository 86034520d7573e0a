//! The finished notification request and its mathematical model.

use crate::text::is_blank;
use vstd::prelude::*;

verus! {

/// One push-notification request, ready for a transport layer to
/// serialize. The three leading fields are required; every other field is
/// optional and absent by default.
#[derive(Debug)]
pub struct Message {
    /// Key of the user or group that receives the notification.
    pub user_key: String,
    /// Token of the application that sends the notification.
    pub app_token: String,
    /// Body of the notification.
    pub message: String,
    /// Title shown above the body; absent means the service shows the
    /// application's name instead.
    pub title: Option<String>,
    /// Supplementary link sent along with the message.
    pub url: Option<String>,
    /// Text shown in place of the raw url; meaningful only while `url` is
    /// present.
    pub url_title: Option<String>,
    /// Urgency in `[-2, 2]`; `0` is normal.
    pub priority: Option<i8>,
    /// Canonical identifier of the notification sound; absent means the
    /// default sound.
    pub sound: Option<String>,
    /// Unix timestamp shown to the user in place of the arrival time.
    pub timestamp: Option<u64>,
    /// Devices the notification is sent to; absent means all of the
    /// user's devices.
    pub devices: Option<Vec<String>>,
}

/// The value of a [`Message`]: each string as its character sequence.
#[verifier::ext_equal]
pub ghost struct MessageView {
    pub user_key: Seq<char>,
    pub app_token: Seq<char>,
    pub message: Seq<char>,
    pub title: Option<Seq<char>>,
    pub url: Option<Seq<char>>,
    pub url_title: Option<Seq<char>>,
    pub priority: Option<i8>,
    pub sound: Option<Seq<char>>,
    pub timestamp: Option<u64>,
    pub devices: Option<Seq<Seq<char>>>,
}

/// The view of an optional string.
pub open spec fn opt_view(o: Option<String>) -> Option<Seq<char>> {
    match o {
        Option::Some(s) => Option::Some(s@),
        Option::None => Option::None,
    }
}

/// The view of an optional device list.
pub open spec fn devices_opt_view(o: Option<Vec<String>>) -> Option<Seq<Seq<char>>> {
    match o {
        Option::Some(v) => Option::Some(v@.map_values(|s: String| s@)),
        Option::None => Option::None,
    }
}

impl View for Message {
    type V = MessageView;

    open spec fn view(&self) -> MessageView {
        MessageView {
            user_key: self.user_key@,
            app_token: self.app_token@,
            message: self.message@,
            title: opt_view(self.title),
            url: opt_view(self.url),
            url_title: opt_view(self.url_title),
            priority: self.priority,
            sound: opt_view(self.sound),
            timestamp: self.timestamp,
            devices: devices_opt_view(self.devices),
        }
    }
}

impl MessageView {
    /// The invariants of a well-formed request: the required fields are
    /// non-empty and the message survives trimming; a stored title is
    /// never blank; a url label never outlives its url; a stored priority
    /// lies in `[-2, 2]`.
    pub open spec fn wf(self) -> bool {
        &&& self.user_key.len() > 0
        &&& self.app_token.len() > 0
        &&& !is_blank(self.message)
        &&& (self.title matches Option::Some(t) ==> !is_blank(t))
        &&& (self.url is None ==> self.url_title is None)
        &&& (self.priority matches Option::Some(p) ==> -2 <= p <= 2)
    }

    /// A device list as `add_device` and `merge_devices` keep it: no
    /// blank and no duplicate entries. An absent list satisfies this
    /// trivially; `set_devices` stores its argument verbatim and so does
    /// not maintain it.
    pub open spec fn devices_wf(self) -> bool {
        match self.devices {
            Option::Some(ds) => {
                &&& (forall|i: int| 0 <= i < ds.len() ==> !is_blank(ds[i]))
                &&& (forall|i: int, j: int| 0 <= i < j < ds.len() ==> ds[i] != ds[j])
            },
            Option::None => true,
        }
    }
}

/// The closed set of notification sounds the delivery service knows. An
/// unsupported identifier cannot be constructed.
#[derive(Clone, Copy, PartialEq, Eq, Structural, Debug)]
pub enum PushoverSound {
    Pushover,
    Bike,
    Bugle,
    CashRegister,
    Classical,
    Cosmic,
    Falling,
    Gamelan,
    Incoming,
    Intermission,
    Magic,
    Mechanical,
    PianoBar,
    Siren,
    SpaceAlarm,
    Tugboat,
    Alien,
    Climb,
    Persistent,
    Echo,
    UpDown,
    Vibrate,
    NoSound,
}

/// The identifier under which the delivery service knows each sound.
pub open spec fn sound_name(s: PushoverSound) -> Seq<char> {
    match s {
        PushoverSound::Pushover => "pushover"@,
        PushoverSound::Bike => "bike"@,
        PushoverSound::Bugle => "bugle"@,
        PushoverSound::CashRegister => "cashregister"@,
        PushoverSound::Classical => "classical"@,
        PushoverSound::Cosmic => "cosmic"@,
        PushoverSound::Falling => "falling"@,
        PushoverSound::Gamelan => "gamelan"@,
        PushoverSound::Incoming => "incoming"@,
        PushoverSound::Intermission => "intermission"@,
        PushoverSound::Magic => "magic"@,
        PushoverSound::Mechanical => "mechanical"@,
        PushoverSound::PianoBar => "pianobar"@,
        PushoverSound::Siren => "siren"@,
        PushoverSound::SpaceAlarm => "spacealarm"@,
        PushoverSound::Tugboat => "tugboat"@,
        PushoverSound::Alien => "alien"@,
        PushoverSound::Climb => "climb"@,
        PushoverSound::Persistent => "persistent"@,
        PushoverSound::Echo => "echo"@,
        PushoverSound::UpDown => "updown"@,
        PushoverSound::Vibrate => "vibrate"@,
        PushoverSound::NoSound => "none"@,
    }
}

impl PushoverSound {
    /// The wire identifier of this sound, as [`sound_name`] gives it.
    pub fn canonical_name(&self) -> (r: String)
        ensures
            r@ == sound_name(*self),
    {
        match self {
            PushoverSound::Pushover => "pushover".to_owned(),
            PushoverSound::Bike => "bike".to_owned(),
            PushoverSound::Bugle => "bugle".to_owned(),
            PushoverSound::CashRegister => "cashregister".to_owned(),
            PushoverSound::Classical => "classical".to_owned(),
            PushoverSound::Cosmic => "cosmic".to_owned(),
            PushoverSound::Falling => "falling".to_owned(),
            PushoverSound::Gamelan => "gamelan".to_owned(),
            PushoverSound::Incoming => "incoming".to_owned(),
            PushoverSound::Intermission => "intermission".to_owned(),
            PushoverSound::Magic => "magic".to_owned(),
            PushoverSound::Mechanical => "mechanical".to_owned(),
            PushoverSound::PianoBar => "pianobar".to_owned(),
            PushoverSound::Siren => "siren".to_owned(),
            PushoverSound::SpaceAlarm => "spacealarm".to_owned(),
            PushoverSound::Tugboat => "tugboat".to_owned(),
            PushoverSound::Alien => "alien".to_owned(),
            PushoverSound::Climb => "climb".to_owned(),
            PushoverSound::Persistent => "persistent".to_owned(),
            PushoverSound::Echo => "echo".to_owned(),
            PushoverSound::UpDown => "updown".to_owned(),
            PushoverSound::Vibrate => "vibrate".to_owned(),
            PushoverSound::NoSound => "none".to_owned(),
        }
    }
}

} // verus!
