//! Transient, self-expiring status messages shown on a page.

use vstd::prelude::*;

verus! {

/// The kind of a notification, deciding how it is presented.
#[derive(Debug, Clone, Copy, PartialEq, Eq, Structural)]
pub enum NotificationType {
    Success,
    Error,
    Info,
}

/// Mathematical model of a [`Notification`].
pub ghost struct NotificationV {
    pub ty: NotificationType,
    pub msg: Seq<char>,
    pub duration: int,
    pub elapsed: int,
}

impl NotificationV {
    /// A notification is well formed while visible: its elapsed tick count
    /// stays strictly below its total duration.
    pub open spec fn wf(self) -> bool {
        0 <= self.elapsed < self.duration
    }

    /// A freshly created notification of the given kind and text.
    pub open spec fn new(ty: NotificationType, msg: Seq<char>, duration: int) -> NotificationV {
        NotificationV { ty, msg, duration, elapsed: 0 }
    }

    /// One tick of decay: on the tick that would make `elapsed` reach
    /// `duration` the notification is cleared, otherwise `elapsed` grows.
    pub open spec fn ticked(self) -> Option<NotificationV> {
        if self.elapsed + 1 == self.duration {
            None
        } else {
            Some(NotificationV { elapsed: self.elapsed + 1, ..self })
        }
    }
}

/// The model of an optional notification slot.
pub open spec fn opt_view(o: Option<Notification>) -> Option<NotificationV> {
    match o {
        Some(n) => Some(n@),
        None => None,
    }
}

/// A timed, typed message with a countdown, owned by the page that made it.
#[derive(Debug, PartialEq)]
pub struct Notification {
    pub ty: NotificationType,
    pub msg: String,
    pub duration: u64,
    pub elapsed: u64,
}

impl View for Notification {
    type V = NotificationV;

    open spec fn view(&self) -> NotificationV {
        NotificationV {
            ty: self.ty,
            msg: self.msg@,
            duration: self.duration as int,
            elapsed: self.elapsed as int,
        }
    }
}

impl Clone for Notification {
    fn clone(&self) -> (r: Self)
        ensures
            r@ == self@,
    {
        Notification {
            ty: self.ty,
            msg: self.msg.clone(),
            duration: self.duration,
            elapsed: self.elapsed,
        }
    }
}

impl Notification {
    /// A success notification that stays for `duration` ticks.
    pub fn success(msg: String, duration: u64) -> (r: Self)
        requires
            duration >= 1,
        ensures
            r@ == NotificationV::new(NotificationType::Success, msg@, duration as int),
            r@.wf(),
    {
        Notification { ty: NotificationType::Success, msg, duration, elapsed: 0 }
    }

    /// An error notification that stays for `duration` ticks.
    pub fn error(msg: String, duration: u64) -> (r: Self)
        requires
            duration >= 1,
        ensures
            r@ == NotificationV::new(NotificationType::Error, msg@, duration as int),
            r@.wf(),
    {
        Notification { ty: NotificationType::Error, msg, duration, elapsed: 0 }
    }

    /// An informational notification that stays for `duration` ticks.
    pub fn info(msg: String, duration: u64) -> (r: Self)
        requires
            duration >= 1,
        ensures
            r@ == NotificationV::new(NotificationType::Info, msg@, duration as int),
            r@.wf(),
    {
        Notification { ty: NotificationType::Info, msg, duration, elapsed: 0 }
    }

    /// The colour a notification of this kind is rendered in, as a packed
    /// `0xRRGGBB` value.
    pub fn color_code(&self) -> (r: u32)
        ensures
            r == spec_color_code(self.ty),
    {
        match self.ty {
            NotificationType::Success => 0x53A653,
            NotificationType::Error => 0xB00020,
            NotificationType::Info => 0xFFFFFF,
        }
    }
}

/// The `0xRRGGBB` colour for each notification kind.
pub open spec fn spec_color_code(ty: NotificationType) -> u32 {
    match ty {
        NotificationType::Success => 0x53A653,
        NotificationType::Error => 0xB00020,
        NotificationType::Info => 0xFFFFFF,
    }
}

} // verus!
