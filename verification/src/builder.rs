//! The fluent builder: every setter consumes the builder and returns the
//! next state, so one chain of calls owns the request from construction
//! to [`MessageBuilder::build`].

use crate::message::{sound_name, Message, MessageView, PushoverSound};
use crate::text::{blank, is_blank};
use vstd::prelude::*;

verus! {

/// The request value after one `add_device(name)` call on a request
/// whose value is `m`: unchanged for a blank name or a name already
/// listed; otherwise `name` is appended at the end, to a fresh list if
/// none was present.
pub open spec fn with_device(m: MessageView, name: Seq<char>) -> MessageView {
    if is_blank(name) {
        m
    } else {
        match m.devices {
            Option::Some(ds) => if ds.contains(name) {
                m
            } else {
                MessageView { devices: Option::Some(ds.push(name)), ..m }
            },
            Option::None => MessageView { devices: Option::Some(seq![name]), ..m },
        }
    }
}

/// The request value after `add_device` has been applied to each element
/// of `names`, in order.
pub open spec fn with_devices_merged(m: MessageView, names: Seq<Seq<char>>) -> MessageView
    decreases names.len(),
{
    if names.len() == 0 {
        m
    } else {
        with_devices_merged(with_device(m, names[0]), names.skip(1))
    }
}

/// Law: adding a device a second time changes nothing — once a name is
/// listed, `add_device` ignores it, so no duplicate can ever enter
/// through this path.
pub proof fn lemma_add_device_idempotent(m: MessageView, name: Seq<char>)
    ensures
        with_device(with_device(m, name), name) == with_device(m, name),
{
    if !is_blank(name) {
        let m1 = with_device(m, name);
        match m.devices {
            Option::Some(ds) => {
                if !ds.contains(name) {
                    assert(ds.push(name)[ds.len() as int] == name);
                    assert(m1.devices->Some_0.contains(name));
                }
            },
            Option::None => {
                assert(seq![name][0] == name);
                assert(m1.devices->Some_0.contains(name));
            },
        }
    }
}

/// Whether `name` occurs in `ds`, by exact string equality.
fn device_listed(ds: &Vec<String>, name: &String) -> (r: bool)
    ensures
        r == ds@.map_values(|s: String| s@).contains(name@),
{
    let ghost views = ds@.map_values(|s: String| s@);
    let mut i: usize = 0;
    while i < ds.len()
        invariant
            i <= ds@.len(),
            views == ds@.map_values(|s: String| s@),
            forall|j: int| 0 <= j < i ==> ds@[j]@ != name@,
        decreases ds@.len() - i,
    {
        if ds[i].eq(name) {
            proof {
                assert(views[i as int] == name@);
                assert(views.contains(name@));
            }
            return true;
        }
        i = i + 1;
    }
    proof {
        assert(forall|j: int| 0 <= j < views.len() ==> views[j] != name@);
    }
    false
}

/// Accumulates the fields of one notification request. Created by
/// [`MessageBuilder::new`] with the three required fields; consumed by
/// [`MessageBuilder::build`].
#[derive(Debug)]
pub struct MessageBuilder {
    build: Message,
}

impl View for MessageBuilder {
    type V = MessageView;

    closed spec fn view(&self) -> MessageView {
        self.build@
    }
}

impl MessageBuilder {
    /// Creates a builder from the required minimal information: the
    /// recipient's user key, the sending application's token and the
    /// message body. All three are stored verbatim; every optional field
    /// starts absent, except the priority, which starts at normal (`0`)
    /// to match the delivery service's default.
    pub fn new(user_key: &str, application_token: &str, message: &str) -> (r: Self)
        requires
            user_key@.len() > 0,
            application_token@.len() > 0,
            !is_blank(message@),
        ensures
            r@ == (MessageView {
                user_key: user_key@,
                app_token: application_token@,
                message: message@,
                title: Option::None,
                url: Option::None,
                url_title: Option::None,
                priority: Option::Some(0i8),
                sound: Option::None,
                timestamp: Option::None,
                devices: Option::None,
            }),
            r@.wf(),
            r@.devices_wf(),
    {
        MessageBuilder {
            build: Message {
                user_key: user_key.to_owned(),
                app_token: application_token.to_owned(),
                message: message.to_owned(),
                title: None,
                url: None,
                url_title: None,
                priority: Some(0),
                sound: None,
                timestamp: None,
                devices: None,
            },
        }
    }

    /// Replaces the message body, unless the given text is blank: a
    /// blank replacement would break the request, so it is silently
    /// ignored and the previous body is kept.
    pub fn modify_message(self, message: &str) -> (r: Self)
        ensures
            is_blank(message@) ==> r@ == self@,
            !is_blank(message@) ==> r@ == (MessageView { message: message@, ..self@ }),
            self@.wf() ==> r@.wf(),
    {
        if blank(message) {
            return self;
        }
        let mut this = self;
        this.build.message = message.to_owned();
        this
    }

    /// Sets the title shown above the message body. A blank title clears
    /// the field instead, so a blank string is never stored; a non-blank
    /// title is stored untrimmed.
    pub fn set_title(self, title: &str) -> (r: Self)
        ensures
            r@ == (MessageView {
                title: if is_blank(title@) {
                    Option::None
                } else {
                    Option::Some(title@)
                },
                ..self@
            }),
            self@.wf() ==> r@.wf(),
    {
        let mut this = self;
        if blank(title) {
            this.build.title = None;
        } else {
            this.build.title = Some(title.to_owned());
        }
        this
    }

    /// Compatibility alias for [`MessageBuilder::set_title`], with the
    /// same behaviour.
    pub fn add_title(self, title: &str) -> (r: Self)
        ensures
            r@ == (MessageView {
                title: if is_blank(title@) {
                    Option::None
                } else {
                    Option::Some(title@)
                },
                ..self@
            }),
            self@.wf() ==> r@.wf(),
    {
        self.set_title(title)
    }

    /// Clears the title; the service then shows the application's name.
    pub fn remove_title(self) -> (r: Self)
        ensures
            r@ == (MessageView { title: Option::None, ..self@ }),
            self@.wf() ==> r@.wf(),
    {
        let mut this = self;
        this.build.title = None;
        this
    }

    /// Sets a url (and optionally a label for it) to send along with the
    /// message. A blank url clears both the url and its label, and the
    /// label argument is ignored. A non-blank url is stored untrimmed;
    /// a supplied label is stored verbatim, blank or not, while an
    /// omitted label leaves the previous label untouched — a label from
    /// an earlier url can survive a later call that omits it, a
    /// documented quirk.
    pub fn set_url(self, url: &str, url_title: Option<&str>) -> (r: Self)
        ensures
            is_blank(url@) ==> r@ == (MessageView {
                url: Option::None,
                url_title: Option::None,
                ..self@
            }),
            !is_blank(url@) ==> r@ == match url_title {
                Option::Some(t) => (MessageView {
                    url: Option::Some(url@),
                    url_title: Option::Some(t@),
                    ..self@
                }),
                Option::None => (MessageView { url: Option::Some(url@), ..self@ }),
            },
            self@.wf() ==> r@.wf(),
    {
        let mut this = self;
        if blank(url) {
            this.build.url = None;
            this.build.url_title = None;
            return this;
        }
        this.build.url = Some(url.to_owned());
        if let Some(t) = url_title {
            this.build.url_title = Some(t.to_owned());
        }
        this
    }

    /// Compatibility alias for [`MessageBuilder::set_url`], with the
    /// same behaviour.
    pub fn add_url(self, url: &str, url_title: Option<&str>) -> (r: Self)
        ensures
            is_blank(url@) ==> r@ == (MessageView {
                url: Option::None,
                url_title: Option::None,
                ..self@
            }),
            !is_blank(url@) ==> r@ == match url_title {
                Option::Some(t) => (MessageView {
                    url: Option::Some(url@),
                    url_title: Option::Some(t@),
                    ..self@
                }),
                Option::None => (MessageView { url: Option::Some(url@), ..self@ }),
            },
            self@.wf() ==> r@.wf(),
    {
        self.set_url(url, url_title)
    }

    /// Clears both the url and its label.
    pub fn remove_url(self) -> (r: Self)
        ensures
            r@ == (MessageView { url: Option::None, url_title: Option::None, ..self@ }),
            self@.wf() ==> r@.wf(),
    {
        let mut this = self;
        this.build.url = None;
        this.build.url_title = None;
        this
    }

    /// Sets the priority. A value outside `[-2, 2]` is not an error: it
    /// is replaced by normal priority (`0`); a value in range is stored
    /// as given, negative values included.
    pub fn set_priority(self, priority: i8) -> (r: Self)
        ensures
            r@ == (MessageView {
                priority: Option::Some(
                    if -2 <= priority && priority <= 2 {
                        priority
                    } else {
                        0i8
                    },
                ),
                ..self@
            }),
            self@.wf() ==> r@.wf(),
    {
        let mut this = self;
        if priority < -2 || priority > 2 {
            this.build.priority = Some(0);
            return this;
        }
        this.build.priority = Some(priority);
        this
    }

    /// Resets the priority to normal (`0`). The field stays present:
    /// normal priority is represented as `0`, not as absent.
    pub fn remove_priority(self) -> (r: Self)
        ensures
            r@ == (MessageView { priority: Option::Some(0i8), ..self@ }),
            self@.wf() ==> r@.wf(),
    {
        let mut this = self;
        this.build.priority = Some(0);
        this
    }

    /// Sets the notification sound, stored under its canonical wire
    /// identifier.
    pub fn set_sound(self, sound: PushoverSound) -> (r: Self)
        ensures
            r@ == (MessageView { sound: Option::Some(sound_name(sound)), ..self@ }),
            self@.wf() ==> r@.wf(),
    {
        let mut this = self;
        this.build.sound = Some(sound.canonical_name());
        this
    }

    /// Clears the sound; the service then uses its default sound.
    pub fn remove_sound(self) -> (r: Self)
        ensures
            r@ == (MessageView { sound: Option::None, ..self@ }),
            self@.wf() ==> r@.wf(),
    {
        let mut this = self;
        this.build.sound = None;
        this
    }

    /// Sets the Unix timestamp shown to the user in place of the arrival
    /// time. Any value is accepted as-is; whether the instant is sensible
    /// is the delivery service's concern.
    pub fn set_timestamp(self, unix_timestamp: u64) -> (r: Self)
        ensures
            r@ == (MessageView { timestamp: Option::Some(unix_timestamp), ..self@ }),
            self@.wf() ==> r@.wf(),
    {
        let mut this = self;
        this.build.timestamp = Some(unix_timestamp);
        this
    }

    /// Clears the timestamp; the service then assigns the delivery time.
    pub fn remove_timestamp(self) -> (r: Self)
        ensures
            r@ == (MessageView { timestamp: Option::None, ..self@ }),
            self@.wf() ==> r@.wf(),
    {
        let mut this = self;
        this.build.timestamp = None;
        this
    }

    /// Adds one device to the target list, preserving insertion order.
    /// A blank name is ignored; a name already listed is ignored, so no
    /// duplicate enters through this call; an absent list is created
    /// first.
    pub fn add_device(self, device_name: &str) -> (r: Self)
        ensures
            r@ == with_device(self@, device_name@),
            self@.wf() ==> r@.wf(),
            self@.devices_wf() ==> r@.devices_wf(),
    {
        if blank(device_name) {
            return self;
        }
        let mut this = self;
        let name = device_name.to_owned();
        match this.build.devices.take() {
            None => {
                let mut ds: Vec<String> = Vec::new();
                ds.push(name);
                proof {
                    assert(ds@.map_values(|s: String| s@) =~= seq![device_name@]);
                }
                this.build.devices = Some(ds);
            },
            Some(mut ds) => {
                let ghost dv = ds@.map_values(|s: String| s@);
                if !device_listed(&ds, &name) {
                    ds.push(name);
                    proof {
                        assert(ds@.map_values(|s: String| s@) =~= dv.push(device_name@));
                        assert(forall|j: int| 0 <= j < dv.len() ==> dv[j] != device_name@);
                    }
                }
                this.build.devices = Some(ds);
            },
        }
        this
    }

    /// Replaces the whole device list with the given names, verbatim:
    /// unlike `add_device`, no blank filtering and no deduplication is
    /// applied — the caller's list is trusted as given.
    pub fn set_devices(self, device_names: Vec<&str>) -> (r: Self)
        ensures
            r@ == (MessageView {
                devices: Option::Some(device_names@.map_values(|s: &str| s@)),
                ..self@
            }),
            self@.wf() ==> r@.wf(),
    {
        let mut this = self;
        let mut ds: Vec<String> = Vec::new();
        let mut i: usize = 0;
        while i < device_names.len()
            invariant
                i <= device_names@.len(),
                ds@.len() == i,
                forall|j: int| 0 <= j < i ==> ds@[j]@ == device_names@[j]@,
            decreases device_names@.len() - i,
        {
            ds.push(device_names[i].to_owned());
            i = i + 1;
        }
        proof {
            assert(ds@.map_values(|s: String| s@) =~= device_names@.map_values(|s: &str| s@));
        }
        this.build.devices = Some(ds);
        this
    }

    /// Merges the given names into the device list: each one passes
    /// through `add_device`'s checks in order, so blanks and duplicates
    /// are dropped along the way.
    pub fn merge_devices(self, device_names: Vec<&str>) -> (r: Self)
        ensures
            r@ == with_devices_merged(self@, device_names@.map_values(|s: &str| s@)),
            self@.wf() ==> r@.wf(),
            self@.devices_wf() ==> r@.devices_wf(),
    {
        let ghost names = device_names@.map_values(|s: &str| s@);
        let ghost m0 = self@;
        proof {
            assert(names.skip(0) =~= names);
        }
        let mut this = self;
        let mut i: usize = 0;
        while i < device_names.len()
            invariant
                i <= device_names@.len(),
                names == device_names@.map_values(|s: &str| s@),
                with_devices_merged(this@, names.skip(i as int)) == with_devices_merged(
                    m0,
                    names,
                ),
                m0.wf() ==> this@.wf(),
                m0.devices_wf() ==> this@.devices_wf(),
            decreases device_names@.len() - i,
        {
            proof {
                assert(names.skip(i as int)[0] == device_names@[i as int]@);
                assert(names.skip(i as int).skip(1) =~= names.skip(i as int + 1));
            }
            this = this.add_device(device_names[i]);
            i = i + 1;
        }
        proof {
            assert(names.skip(device_names@.len() as int).len() == 0);
        }
        this
    }

    /// Clears the device list entirely; the notification then goes to
    /// all of the user's devices.
    pub fn clear_devices_list(self) -> (r: Self)
        ensures
            r@ == (MessageView { devices: Option::None, ..self@ }),
            self@.wf() ==> r@.wf(),
            r@.devices_wf(),
    {
        let mut this = self;
        this.build.devices = None;
        this
    }

    /// Consumes the builder and yields the finished request, unchanged.
    /// Never fails: every invariant already holds from the setters.
    pub fn build(self) -> (r: Message)
        ensures
            r@ == self@,
    {
        self.build
    }
}

} // verus!
