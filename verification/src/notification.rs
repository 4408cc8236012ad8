//! Notifications, and what posts them.
use vstd::prelude::*;
use vstd::string::*;

use crate::config::{default_sound, sound_of, Platform};
use crate::table::StringTable;
use crate::text::{ascii_upper, join, lowercase, opt_text, to_lower};

verus! {

/// A notification to show to the user.
#[derive(Debug)]
pub struct Notification {
    /// Identifies the notification for replacement and dismissal.
    pub tag: String,
    /// The room name, or the sender of a direct message.
    pub title: String,
    /// The sender in a room of several people.
    pub subtitle: Option<String>,
    pub body: String,
    /// The sound to play; none is silent.
    pub sound: Option<String>,
    /// Groups notifications; one group per room.
    pub thread_id: String,
    /// Whether it only replaces what an earlier one shows.
    pub replace: bool,
}

/// What a `Notification` says.
#[verifier::ext_equal]
pub struct NotificationView {
    pub tag: Seq<char>,
    pub title: Seq<char>,
    pub subtitle: Option<Seq<char>>,
    pub body: Seq<char>,
    pub sound: Option<Seq<char>>,
    pub thread_id: Seq<char>,
    pub replace: bool,
}

impl View for Notification {
    type V = NotificationView;

    open spec fn view(&self) -> NotificationView {
        NotificationView {
            tag: self.tag@,
            title: self.title@,
            subtitle: opt_text(self.subtitle),
            body: self.body@,
            sound: opt_text(self.sound),
            thread_id: self.thread_id@,
            replace: self.replace,
        }
    }
}

/// Why a notification could not be posted or dismissed.
#[derive(Debug)]
pub struct NotifyError {
    pub message: String,
}

/// A request that was made of a notifier, and whether it succeeded.
pub enum Request {
    Send { notification: NotificationView, ok: bool },
    Dismiss { tag: Seq<char>, ok: bool },
}

/// A platform's way to show notifications. The requests made of it so far are its history:
/// every call appends one.
pub trait Notifier: Send + Sync {
    /// The requests made so far, oldest first. A verified implementation keeps them in its state
    /// and says so here. One in ordinary Rust need not write this: no code runs on it, and what is
    /// proved of a caller is then read as being about the calls that it makes.
    open spec fn requests(&self) -> Seq<Request> {
        Seq::empty()
    }

    /// Posts or updates a notification.
    fn send(&mut self, notification: &Notification) -> (r: Result<(), NotifyError>)
        ensures
            final(self).requests() == old(self).requests().push(
                Request::Send { notification: notification@, ok: r is Ok },
            ),
    ;

    /// Dismisses the notification with this tag.
    fn dismiss(&mut self, tag: &str) -> (r: Result<(), NotifyError>)
        ensures
            final(self).requests() == old(self).requests().push(
                Request::Dismiss { tag: tag@, ok: r is Ok },
            ),
    ;
}

/// The backends there are.
#[derive(Debug, Clone, Copy, PartialEq, Eq, Structural)]
pub enum Backend {
    /// The notification service on the session bus.
    Linux,
    /// The user notification center.
    Macos,
}

/// Picks the backend of a platform. Where there is none that is an error.
pub fn create_notifier(platform: Platform) -> (r: Result<Backend, NotifyError>)
    ensures
        match platform {
            Platform::Linux => r == Ok::<Backend, NotifyError>(Backend::Linux),
            Platform::Macos => r == Ok::<Backend, NotifyError>(Backend::Macos),
            Platform::Other => r is Err && r->Err_0.message@
                == "notifications not supported on this platform"@,
        },
{
    match platform {
        Platform::Linux => Ok(Backend::Linux),
        Platform::Macos => Ok(Backend::Macos),
        Platform::Other => Err(
            NotifyError { message: "notifications not supported on this platform".to_owned() },
        ),
    }
}

/// What the notification service on the session bus is asked to show.
#[derive(Debug)]
pub struct Popup {
    pub app_name: String,
    pub summary: String,
    pub body: String,
    pub sound_name: Option<String>,
    /// The popup to replace.
    pub id: Option<u32>,
}

/// The popups on the session bus that are still shown: their ids by tag.
pub struct LinuxNotifier {
    active: StringTable<u32>,
}

impl View for LinuxNotifier {
    type V = Map<Seq<char>, u32>;

    closed spec fn view(&self) -> Map<Seq<char>, u32> {
        self.active@
    }
}

/// The popup that is shown for a tag.
pub open spec fn popup_id(active: Map<Seq<char>, u32>, tag: Seq<char>) -> Option<u32> {
    if active.contains_key(tag) {
        Some(active[tag])
    } else {
        None
    }
}

impl LinuxNotifier {
    /// No popup is shown.
    pub fn new() -> (n: Self)
        ensures
            n@ == Map::<Seq<char>, u32>::empty(),
    {
        LinuxNotifier { active: StringTable::new() }
    }

    /// The popup for a notification. It replaces the one with the same tag where that is still
    /// shown.
    pub fn popup(&self, notification: &Notification) -> (p: Popup)
        ensures
            p.app_name@ == "psst"@,
            p.summary@ == notification@.title,
            p.body@ == notification@.body,
            opt_text(p.sound_name) == notification@.sound,
            p.id == popup_id(self@, notification@.tag),
    {
        let id = match self.active.get(notification.tag.as_str()) {
            Some(id) => Some(*id),
            None => None,
        };
        Popup {
            app_name: "psst".to_owned(),
            summary: notification.title.clone(),
            body: notification.body.clone(),
            sound_name: crate::text::copy_opt(&notification.sound),
            id,
        }
    }

    /// Notes the id under which the popup for a tag is shown.
    pub fn shown(&mut self, tag: &str, id: u32)
        ensures
            final(self)@ == old(self)@.insert(tag@, id),
    {
        self.active.insert(tag.to_owned(), id);
    }

    /// Forgets the popup for a tag and gives its id, to close it.
    pub fn close(&mut self, tag: &str) -> (r: Option<u32>)
        ensures
            r == popup_id(old(self)@, tag@),
            final(self)@ == old(self)@.remove(tag@),
    {
        let ghost before = self.active@;
        let r = self.active.remove(tag);
        assert(r is None ==> before.remove(tag@) =~= before);
        r
    }
}

/// A text with its first character in upper case (ASCII only) and the rest in lower case.
pub open spec fn titled(s: Seq<char>) -> Seq<char> {
    if s.len() == 0 {
        s
    } else {
        seq![ascii_upper(s[0])] + lowercase(s.skip(1))
    }
}

/// Puts the first character in upper case (ASCII only) and the rest in lower case.
pub fn titlecase(s: &str) -> (r: String)
    ensures
        r@ == titled(s@),
{
    let n: usize = s.unicode_len();
    if n == 0 {
        return String::new();
    }
    let first = s.get_char(0);
    let rest = s.substring_char(1, n);
    let mut out = String::new();
    out.push(first.to_ascii_uppercase());
    assert(rest@ =~= s@.skip(1));
    out.append(to_lower(rest).as_str());
    out
}

/// The sound file of the user notification center for a sound name, in whatever case it is
/// written.
pub fn macos_sound_file(name: &str) -> (r: String)
    ensures
        r@ == titled(name@) + ".aiff"@,
{
    join(titlecase(name).as_str(), ".aiff")
}

/// The notifications that show whether the backend works: a silent one, then one with the
/// platform's sound.
pub fn test_notifications(platform: Platform) -> (r: (Notification, Notification))
    ensures
        r.0@ == (NotificationView {
            tag: "psst-test-silent"@,
            title: "psst"@,
            subtitle: None,
            body: "silent test notification"@,
            sound: None,
            thread_id: "psst-test"@,
            replace: false,
        }),
        r.1@ == (NotificationView {
            tag: "psst-test-noisy"@,
            title: "psst"@,
            subtitle: None,
            body: "noisy test notification"@,
            sound: Some(sound_of(platform)),
            thread_id: "psst-test"@,
            replace: false,
        }),
{
    (
        Notification {
            tag: "psst-test-silent".to_owned(),
            title: "psst".to_owned(),
            subtitle: None,
            body: "silent test notification".to_owned(),
            sound: None,
            thread_id: "psst-test".to_owned(),
            replace: false,
        },
        Notification {
            tag: "psst-test-noisy".to_owned(),
            title: "psst".to_owned(),
            subtitle: None,
            body: "noisy test notification".to_owned(),
            sound: Some(default_sound(platform)),
            thread_id: "psst-test".to_owned(),
            replace: false,
        },
    )
}

} // verus!
