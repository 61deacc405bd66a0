//! Steering an application on macOS.
use vstd::prelude::*;

use crate::error::{Error, ErrorView};
use crate::keys::{cg_flags, code_to_macos_keycode, modifiers_to_cg_flags, Code, Modifiers};
use crate::menu::{entries_found, menu_entries, BarReply, EntryView, Walk, Wanted};

verus! {

/// A GUI application on macOS.
pub struct MacOSHandle {
    pub pid: u32,
}

/// How a key event reaches the application.
#[derive(Debug, Clone, Copy, PartialEq, Eq, Structural)]
pub enum KeyRoute {
    /// Through the session, as the events of a real keyboard: they go to
    /// whichever application is in front.
    Session,
    /// To the event queue of this process.
    Process(i32),
}

/// A key event to be made and posted.
#[derive(Debug, Clone, Copy, PartialEq, Eq, Structural)]
pub struct KeyPost {
    pub keycode: u16,
    /// The key goes down; otherwise it comes up.
    pub down: bool,
    pub flags: u64,
    pub route: KeyRoute,
}

/// The process in front has this identifier.
pub open spec fn is_frontmost(pid: u32, frontmost: Option<i32>) -> bool {
    frontmost == Some(pid as i32)
}

/// Whether the process in front, if there is one, has this identifier.
pub fn is_pid_frontmost(pid: u32, frontmost: Option<i32>) -> (yes: bool)
    ensures
        yes == is_frontmost(pid, frontmost),
{
    match frontmost {
        Some(front) => front == pid as i32,
        None => false,
    }
}

/// The route for the events of a process: an application in front gets them
/// through the session, any other through its own queue.
pub open spec fn route_to(pid: u32, frontmost: Option<i32>) -> KeyRoute {
    if is_frontmost(pid, frontmost) {
        KeyRoute::Session
    } else {
        KeyRoute::Process(pid as i32)
    }
}

/// The key press that types a key: down, then up.
pub open spec fn key_press(keycode: u16, flags: u64, route: KeyRoute) -> Seq<KeyPost> {
    seq![
        KeyPost { keycode, down: true, flags, route },
        KeyPost { keycode, down: false, flags, route },
    ]
}

/// The events that type a key in a process, in order.
pub fn send_keystroke_to_pid(
    pid: u32,
    keycode: u16,
    flags: u64,
    frontmost: Option<i32>,
) -> (posts: Vec<KeyPost>)
    ensures
        posts@ == key_press(keycode, flags, route_to(pid, frontmost)),
{
    let route = if is_pid_frontmost(pid, frontmost) {
        KeyRoute::Session
    } else {
        KeyRoute::Process(pid as i32)
    };
    let mut posts: Vec<KeyPost> = Vec::new();
    posts.push(KeyPost { keycode, down: true, flags, route });
    posts.push(KeyPost { keycode, down: false, flags, route });
    assert(posts@ =~= key_press(keycode, flags, route));
    posts
}

/// The error for an event that could not be made.
pub fn key_event_failed(post: KeyPost) -> (error: Error)
    ensures
        error@ == ErrorView::Platform(
            if post.down {
                "failed to create key-down event"@
            } else {
                "failed to create key-up event"@
            },
        ),
{
    if post.down {
        Error::Platform("failed to create key-down event".to_string())
    } else {
        Error::Platform("failed to create key-up event".to_string())
    }
}

/// How to bring an application to the front.
#[derive(Debug, Clone, Copy, PartialEq, Eq, Structural)]
pub struct FocusPlan {
    /// Show the application first: a hidden one may refuse to be activated.
    pub unhide: bool,
}

impl MacOSHandle {
    /// How to bring the application to the front; it is activated with all its
    /// windows after the steps of the plan.
    pub fn focus(&self, terminated: bool, hidden: bool) -> (plan: Result<FocusPlan, Error>)
        ensures
            terminated ==> (plan matches Err(error) && error@ == ErrorView::Terminated),
            !terminated ==> plan == Ok::<_, Error>(FocusPlan { unhide: hidden }),
    {
        if terminated {
            return Err(Error::Terminated);
        }
        Ok(FocusPlan { unhide: hidden })
    }

    /// The events that type the key with the modifiers held, in order.
    pub fn send_keystroke(
        &self,
        code: &Code,
        modifiers: Modifiers,
        frontmost: Option<i32>,
    ) -> (posts: Result<Vec<KeyPost>, Error>)
        ensures
            match code.macos_keycode() {
                Some(keycode) => posts matches Ok(list) && list@ == key_press(
                    keycode,
                    cg_flags(modifiers) as u64,
                    route_to(self.pid, frontmost),
                ),
                None => posts matches Err(error) && error@ == ErrorView::Platform(
                    "unsupported key: "@ + code.spelling(),
                ),
            },
    {
        match code_to_macos_keycode(code) {
            Some(keycode) => {
                let flags: u64 = modifiers_to_cg_flags(modifiers);
                Ok(send_keystroke_to_pid(self.pid, keycode, flags, frontmost))
            },
            None => {
                let name = code.name();
                Err(Error::Platform("unsupported key: ".to_string().concat(name.as_str())))
            },
        }
    }

    /// The walk to the menu item that the command key and `ch` stand for, to be
    /// pressed where it ends.
    pub fn press_menu_cmd_char(&self, ch: char, reply: BarReply) -> (walk: Result<Walk, Error>)
        ensures
            starts_walk(reply, Wanted::Command(ch), walk),
    {
        match menu_entries(reply) {
            Ok(entries) => Ok(Walk::new(Wanted::Command(ch), entries)),
            Err(error) => Err(error),
        }
    }

    /// The walk to the menu item with this title in the menu with that title,
    /// to be pressed where it ends.
    pub fn press_menu_item(&self, menu_title: &str, item_title: &str, reply: BarReply) -> (walk:
        Result<Walk, Error>)
        ensures
            exists|wanted: Wanted| #[trigger]
                starts_walk(reply, wanted, walk) && (wanted matches Wanted::Title { menu, item }
                    && menu@ == menu_title@ && item@ == item_title@),
    {
        let wanted = Wanted::Title { menu: menu_title.to_string(), item: item_title.to_string() };
        let ghost described = wanted;
        let walk = match menu_entries(reply) {
            Ok(entries) => Ok(Walk::new(wanted, entries)),
            Err(error) => Err(error),
        };
        assert(starts_walk(reply, described, walk));
        walk
    }

    /// The walk that finds out whether there is a menu item with this title in
    /// the menu with that title. It is the one that a press takes, so that the
    /// application gets used to being asked.
    pub fn find_menu_item(&self, menu_title: &str, item_title: &str, reply: BarReply) -> (walk:
        Result<Walk, Error>)
        ensures
            exists|wanted: Wanted| #[trigger]
                starts_walk(reply, wanted, walk) && (wanted matches Wanted::Title { menu, item }
                    && menu@ == menu_title@ && item@ == item_title@),
    {
        self.press_menu_item(menu_title, item_title, reply)
    }
}

/// A walk to what is wanted starts, or the menu bar cannot be walked through.
pub open spec fn starts_walk(reply: BarReply, wanted: Wanted, walk: Result<Walk, Error>) -> bool {
    match (entries_found(reply), walk) {
        (Ok(entries), Ok(walk)) => {
            &&& walk.wanted == wanted
            &&& forall|bar: Seq<EntryView>| bar.len() == entries ==> #[trigger] walk.fits(bar)
        },
        (Err(view), Err(error)) => error@ == view,
        _ => false,
    }
}

/// Both events of a key press go the same way: through the session exactly
/// where the process is in front.
pub proof fn session_events_go_to_the_front_only(
    pid: u32,
    keycode: u16,
    flags: u64,
    frontmost: Option<i32>,
    i: int,
)
    requires
        0 <= i < 2,
    ensures
        key_press(keycode, flags, route_to(pid, frontmost))[i].route == KeyRoute::Session
            <==> is_frontmost(pid, frontmost),
{
}

/// A process is in front exactly where the identifier in front is its own, and
/// never where nothing is in front; its events go through the session then, and
/// else to its own queue.
pub proof fn events_go_to_their_process(pid: u32, front: i32)
    requires
        pid <= i32::MAX,
    ensures
        is_frontmost(pid, Some(front)) <==> front == pid,
        !is_frontmost(pid, None),
        front == pid ==> route_to(pid, Some(front)) == KeyRoute::Session,
        front != pid ==> (route_to(pid, Some(front)) matches KeyRoute::Process(to) && to == pid),
        route_to(pid, None) matches KeyRoute::Process(to) && to == pid,
{
}

/// An identifier past the signed ones is compared as the signed one with the same
/// bits.
pub proof fn large_identifiers_are_taken_as_signed(pid: u32, front: i32)
    requires
        pid > i32::MAX,
    ensures
        is_frontmost(pid, Some(front)) <==> front == pid - 0x1_0000_0000,
        route_to(pid, None) matches KeyRoute::Process(to) && to == pid - 0x1_0000_0000,
{
    assert((pid as i32) == pid - 0x1_0000_0000) by (bit_vector)
        requires
            pid > 0x7FFF_FFFF,
    ;
}

/// A key is typed by two events that agree in everything but that the first
/// presses the key and the second lets it go.
pub proof fn a_key_goes_down_and_up(keycode: u16, flags: u64, route: KeyRoute, i: int)
    requires
        0 <= i < 2,
    ensures
        key_press(keycode, flags, route).len() == 2,
        key_press(keycode, flags, route)[i].keycode == keycode,
        key_press(keycode, flags, route)[i].flags == flags,
        key_press(keycode, flags, route)[i].route == route,
        key_press(keycode, flags, route)[i].down <==> i == 0,
{
}

/// A walk starts exactly where the menu bar was found, for what is wanted and
/// with nothing ruled out; else the error says why there is no menu bar.
pub proof fn a_walk_starts_where_there_is_a_menu_bar(
    reply: BarReply,
    wanted: Wanted,
    walk: Walk,
    error: Error,
)
    ensures
        starts_walk(reply, wanted, Ok(walk)) <==> (reply matches BarReply::Entries(count) && {
            &&& walk.wanted == wanted
            &&& forall|bar: Seq<EntryView>| bar.len() == count ==> #[trigger] walk.fits(bar)
        }),
        starts_walk(reply, wanted, Err(error)) <==> entries_found(reply) == Err::<usize, _>(error@),
{
}

/// An application that has terminated is not brought to the front; any other is,
/// and is shown first exactly where it is hidden.
pub proof fn only_a_living_application_is_focused(
    handle: MacOSHandle,
    terminated: bool,
    hidden: bool,
    plan: Result<FocusPlan, Error>,
)
    requires
        call_ensures(MacOSHandle::focus, (&handle, terminated, hidden), plan),
    ensures
        plan is Ok <==> !terminated,
        plan matches Ok(p) ==> p.unhide == hidden,
        plan matches Err(error) ==> error@ == ErrorView::Terminated,
{
}

/// The events of a key reach the process that they are meant for: both go through
/// the session where it is in front, and else to its own queue.
pub proof fn typed_events_reach_their_process(
    pid: u32,
    keycode: u16,
    flags: u64,
    frontmost: Option<i32>,
    posts: Vec<KeyPost>,
    i: int,
)
    requires
        pid <= i32::MAX,
        call_ensures(send_keystroke_to_pid, (pid, keycode, flags, frontmost), posts),
        0 <= i < posts@.len(),
    ensures
        posts@.len() == 2,
        posts@[i].down <==> i == 0,
        posts@[i].keycode == keycode,
        posts@[i].flags == flags,
        match posts@[i].route {
            KeyRoute::Session => frontmost matches Some(front) && front == pid,
            KeyRoute::Process(to) => to == pid && !(frontmost matches Some(front) && front == pid),
        },
{
}

/// The error for an event says which of the two could not be made.
pub proof fn a_failed_event_is_named(post: KeyPost, error: Error)
    requires
        call_ensures(key_event_failed, (post,), error),
    ensures
        post.down ==> error@ == ErrorView::Platform("failed to create key-down event"@),
        !post.down ==> error@ == ErrorView::Platform("failed to create key-up event"@),
{
}

/// A key with a code is typed with that code, and with the flags of the held
/// modifiers; one without is refused by its name.
pub proof fn a_key_is_typed_with_its_code(
    handle: MacOSHandle,
    code: Code,
    modifiers: Modifiers,
    frontmost: Option<i32>,
    posts: Result<Vec<KeyPost>, Error>,
    i: int,
)
    requires
        call_ensures(
            MacOSHandle::send_keystroke,
            (&handle, &code, modifiers, frontmost),
            posts,
        ),
        0 <= i < 2,
    ensures
        posts is Ok <==> code.macos_keycode() is Some,
        posts matches Ok(list) ==> {
            &&& list@.len() == 2
            &&& code.macos_keycode() == Some(list@[i].keycode)
            &&& list@[i].down == (i == 0)
            &&& list@[i].flags == cg_flags(modifiers) as u64
        },
        posts matches Err(error) ==> error@ == ErrorView::Platform(
            "unsupported key: "@ + code.spelling(),
        ),
{
}

} // verus!
