//! Notifications, the queue they wait in, the display clients they are
//! shown on, and the barrier that lets the next one start only once every
//! connected client has finished the current one.

use vstd::prelude::*;
use vstd::string::StringExecFns;
use std::collections::VecDeque;
use crate::chat::{privmsg_line, send_message, OutboundQueue};
use crate::text::same_text;

verus! {

/// The kind of event a notification announces.
#[derive(Clone, Copy, Debug, PartialEq, Eq, Structural)]
pub enum NotificationType {
    Unset,
    Follow,
    Subscription,
    SubscriptionExt,
    SubscriptionGift,
    SubscriptionGiftReceived,
    Bits,
    Raid,
    ChannelRedemption,
}

/// The number that identifies a notification type to display clients.
pub open spec fn type_index(t: NotificationType) -> usize {
    match t {
        NotificationType::Unset => 0,
        NotificationType::Follow => 1,
        NotificationType::Subscription => 2,
        NotificationType::SubscriptionExt => 3,
        NotificationType::SubscriptionGift => 4,
        NotificationType::SubscriptionGiftReceived => 5,
        NotificationType::Bits => 6,
        NotificationType::Raid => 7,
        NotificationType::ChannelRedemption => 8,
    }
}

impl NotificationType {
    pub fn index(&self) -> (r: usize)
        ensures
            r == type_index(*self),
    {
        match self {
            NotificationType::Unset => 0,
            NotificationType::Follow => 1,
            NotificationType::Subscription => 2,
            NotificationType::SubscriptionExt => 3,
            NotificationType::SubscriptionGift => 4,
            NotificationType::SubscriptionGiftReceived => 5,
            NotificationType::Bits => 6,
            NotificationType::Raid => 7,
            NotificationType::ChannelRedemption => 8,
        }
    }
}

/// One display event. Volumes are in percent of full volume; positions
/// and sizes are in pixels.
pub struct Notification {
    pub kind: NotificationType,
    /// Posted to the chat when the notification starts.
    pub message_chat: Option<String>,
    pub message_displayed: Option<String>,
    pub message_displayed_position: (i32, i32),
    /// Read out by text to speech.
    pub message_read: Option<String>,
    /// Name of the sound asset to play.
    pub played_sound: Option<String>,
    pub played_sound_volume: u32,
    /// Name of the video asset to play.
    pub played_video: Option<String>,
    pub played_video_volume: u32,
    pub played_video_position: (i32, i32),
    pub played_video_size: (i32, i32),
}

pub open spec fn opt_text(o: Option<String>) -> Option<Seq<char>> {
    match o {
        Some(s) => Some(s@),
        None => None,
    }
}

/// No chat text, no displayed text, no speech, no sound and no video.
pub open spec fn shows_nothing(n: Notification) -> bool {
    &&& n.message_chat is None
    &&& n.message_displayed is None
    &&& n.message_read is None
    &&& n.played_sound is None
    &&& n.played_video is None
}

/// The settings a notification has unless it says otherwise: everything at
/// the origin, sizes zero, volumes full.
pub open spec fn default_layout(n: Notification) -> bool {
    &&& n.message_displayed_position == (0i32, 0i32)
    &&& n.played_sound_volume == 100
    &&& n.played_video_volume == 100
    &&& n.played_video_position == (0i32, 0i32)
    &&& n.played_video_size == (0i32, 0i32)
}

/// A notification of type `kind` that shows nothing, with the default
/// settings.
pub open spec fn is_blank(n: Notification, kind: NotificationType) -> bool {
    n.kind == kind && shows_nothing(n) && default_layout(n)
}

impl Default for Notification {
    fn default() -> (r: Notification)
        ensures
            is_blank(r, NotificationType::Unset),
    {
        Notification::blank(NotificationType::Unset)
    }
}

fn copy_text(o: &Option<String>) -> (r: Option<String>)
    ensures
        r == *o,
{
    match o {
        Some(s) => Some(s.clone()),
        None => None,
    }
}

impl Notification {
    /// A notification of type `kind` that shows nothing.
    pub fn blank(kind: NotificationType) -> (r: Notification)
        ensures
            is_blank(r, kind),
    {
        Notification {
            kind,
            message_chat: None,
            message_displayed: None,
            message_displayed_position: (0, 0),
            message_read: None,
            played_sound: None,
            played_sound_volume: 100,
            played_video: None,
            played_video_volume: 100,
            played_video_position: (0, 0),
            played_video_size: (0, 0),
        }
    }

    /// An identical copy.
    pub fn duplicate(&self) -> (r: Notification)
        ensures
            r == *self,
    {
        Notification {
            kind: self.kind,
            message_chat: copy_text(&self.message_chat),
            message_displayed: copy_text(&self.message_displayed),
            message_displayed_position: self.message_displayed_position,
            message_read: copy_text(&self.message_read),
            played_sound: copy_text(&self.played_sound),
            played_sound_volume: self.played_sound_volume,
            played_video: copy_text(&self.played_video),
            played_video_volume: self.played_video_volume,
            played_video_position: self.played_video_position,
            played_video_size: self.played_video_size,
        }
    }
}

/// The follow notification for `user`: thanks in chat, a text on screen and
/// a quiet sound.
pub open spec fn is_follow_notification(n: Notification, user: Seq<char>) -> bool {
    &&& n.kind == NotificationType::Follow
    &&& opt_text(n.message_chat) == Some("@"@ + user + " thank you for following!"@)
    &&& opt_text(n.message_displayed) == Some("New follower "@ + user + "!"@)
    &&& n.message_displayed_position == (100i32, 200i32)
    &&& opt_text(n.played_sound) == Some("follow_sound"@)
    &&& n.played_sound_volume == 20
    &&& n.message_read is None
    &&& n.played_video is None
    &&& n.played_video_volume == 100
    &&& n.played_video_position == (0i32, 0i32)
    &&& n.played_video_size == (0i32, 0i32)
}

/// The subscription notification for `user`: a text on screen and a video.
pub open spec fn is_subscription_notification(n: Notification, user: Seq<char>) -> bool {
    &&& n.kind == NotificationType::Subscription
    &&& n.message_chat is None
    &&& opt_text(n.message_displayed) == Some(user + " just subscribed!"@)
    &&& n.message_displayed_position == (100i32, 200i32)
    &&& n.message_read is None
    &&& n.played_sound is None
    &&& n.played_sound_volume == 100
    &&& opt_text(n.played_video) == Some("sub_video"@)
    &&& n.played_video_volume == 50
    &&& n.played_video_position == (100i32, 400i32)
    &&& n.played_video_size == (200i32, 200i32)
}

pub fn follow_notification(user_name: &str) -> (r: Notification)
    ensures
        is_follow_notification(r, user_name@),
{
    let mut chat = String::from_str("@");
    chat.append(user_name);
    chat.append(" thank you for following!");
    let mut shown = String::from_str("New follower ");
    shown.append(user_name);
    shown.append("!");
    let mut n = Notification::blank(NotificationType::Follow);
    n.message_chat = Some(chat);
    n.message_displayed = Some(shown);
    n.message_displayed_position = (100, 200);
    n.played_sound = Some(String::from_str("follow_sound"));
    n.played_sound_volume = 20;
    n
}

pub fn subscription_notification(user_name: &str) -> (r: Notification)
    ensures
        is_subscription_notification(r, user_name@),
{
    let mut shown = String::from_str(user_name);
    shown.append(" just subscribed!");
    let mut n = Notification::blank(NotificationType::Subscription);
    n.message_displayed = Some(shown);
    n.message_displayed_position = (100, 200);
    n.played_video = Some(String::from_str("sub_video"));
    n.played_video_volume = 50;
    n.played_video_position = (100, 400);
    n.played_video_size = (200, 200);
    n
}

/// The number of played notifications kept for diagnostics.
pub const HISTORY_LEN: usize = 20;

/// One connected display surface: the payloads waiting to be sent to it,
/// and whether it has finished showing the last one it got.
pub struct DisplayClient {
    id: u64,
    queue: VecDeque<Notification>,
    finished: bool,
}

pub struct ClientView {
    pub id: u64,
    pub queue: Seq<Notification>,
    pub finished: bool,
}

impl View for DisplayClient {
    type V = ClientView;

    closed spec fn view(&self) -> ClientView {
        ClientView { id: self.id, queue: self.queue@, finished: self.finished }
    }
}

/// The notification queue, the registry of display clients and the
/// completion barrier, as plain values.
pub struct HubView {
    /// Waiting notifications, next first.
    pub queue: Seq<Notification>,
    /// Played notifications, oldest first.
    pub history: Seq<Notification>,
    /// Registered clients in order of registration.
    pub clients: Seq<ClientView>,
    /// A notification has been handed to the clients and not every one of
    /// them has finished it.
    pub active: bool,
    /// The id the next client gets.
    pub next_id: u64,
}

/// Every registered client has finished; true when there are none.
pub open spec fn all_finished(cs: Seq<ClientView>) -> bool {
    forall|i: int| 0 <= i < cs.len() ==> (#[trigger] cs[i]).finished
}

/// The clients after `n` has been handed to each: queued for sending, and
/// not finished.
pub open spec fn dispatched(cs: Seq<ClientView>, n: Notification) -> Seq<ClientView> {
    Seq::new(
        cs.len(),
        |i: int| ClientView { id: cs[i].id, queue: cs[i].queue.push(n), finished: false },
    )
}

/// The history after `n` was played: the newest `HISTORY_LEN` entries.
pub open spec fn remembered(h: Seq<Notification>, n: Notification) -> Seq<Notification> {
    if h.len() + 1 > HISTORY_LEN {
        h.push(n).drop_first()
    } else {
        h.push(n)
    }
}

/// One step of the scheduler. When idle, the next notification, if any, is
/// taken off the queue, handed to every registered client and recorded in
/// the history; the hub becomes active only if some client got it. When
/// active, it becomes idle once every registered client has finished.
pub open spec fn tick_spec(v: HubView) -> HubView {
    if !v.active {
        if v.queue.len() > 0 {
            HubView {
                queue: v.queue.drop_first(),
                history: remembered(v.history, v.queue[0]),
                clients: dispatched(v.clients, v.queue[0]),
                active: v.clients.len() > 0,
                next_id: v.next_id,
            }
        } else {
            v
        }
    } else {
        HubView { active: !all_finished(v.clients), ..v }
    }
}

/// The chat lines a scheduler step queues: the chat text of the
/// notification it starts, if it has one.
pub open spec fn tick_chat(v: HubView, channel: Seq<char>) -> Seq<Seq<char>> {
    if !v.active && v.queue.len() > 0 && v.queue[0].message_chat is Some {
        seq![privmsg_line(channel, v.queue[0].message_chat->0@)]
    } else {
        Seq::empty()
    }
}

/// The position of the first client at or after `from` with id `id`.
pub open spec fn index_from(cs: Seq<ClientView>, id: u64, from: nat) -> Option<int>
    decreases cs.len() - from,
{
    if from >= cs.len() {
        None
    } else if cs[from as int].id == id {
        Some(from as int)
    } else {
        index_from(cs, id, from + 1)
    }
}

/// The position of the client with id `id`.
pub open spec fn client_index(cs: Seq<ClientView>, id: u64) -> Option<int> {
    index_from(cs, id, 0)
}

/// The hub after the client with id `id`, if registered, has left.
pub open spec fn without_client(v: HubView, id: u64) -> HubView {
    HubView {
        clients: match client_index(v.clients, id) {
            Some(i) => v.clients.remove(i),
            None => v.clients,
        },
        ..v
    }
}

/// The hub after the client with id `id`, if registered, has finished.
pub open spec fn with_finished(v: HubView, id: u64) -> HubView {
    HubView {
        clients: match client_index(v.clients, id) {
            Some(i) => v.clients.update(i, ClientView { finished: true, ..v.clients[i] }),
            None => v.clients,
        },
        ..v
    }
}

/// Client ids are issued in increasing order and never reused; at most one
/// notification is active, and while none is, every client has finished;
/// the history holds at most `HISTORY_LEN` entries.
pub open spec fn hub_wf(v: HubView) -> bool {
    &&& forall|i: int, j: int|
        0 <= i < j < v.clients.len() ==> (#[trigger] v.clients[i]).id < (#[trigger] v.clients[j]).id
    &&& forall|i: int| 0 <= i < v.clients.len() ==> (#[trigger] v.clients[i]).id < v.next_id
    &&& !v.active ==> all_finished(v.clients)
    &&& v.history.len() <= HISTORY_LEN
}

/// Notifications waiting to be shown, the connected display clients, and
/// the barrier between them.
pub struct NotificationHub {
    queue: VecDeque<Notification>,
    history: VecDeque<Notification>,
    clients: Vec<DisplayClient>,
    active: bool,
    next_id: u64,
}

impl View for NotificationHub {
    type V = HubView;

    closed spec fn view(&self) -> HubView {
        HubView {
            queue: self.queue@,
            history: self.history@,
            clients: self.clients@.map_values(|c: DisplayClient| c@),
            active: self.active,
            next_id: self.next_id,
        }
    }
}

proof fn lemma_index_from(cs: Seq<ClientView>, id: u64, from: nat)
    ensures
        index_from(cs, id, from) matches Some(i) ==> from <= i < cs.len() && cs[i].id == id
            && forall|j: int| from <= j < i ==> (#[trigger] cs[j]).id != id,
        index_from(cs, id, from) is None ==> forall|j: int|
            from <= j < cs.len() ==> (#[trigger] cs[j]).id != id,
    decreases cs.len() - from,
{
    if from < cs.len() && cs[from as int].id != id {
        lemma_index_from(cs, id, from + 1);
    }
}

impl NotificationHub {
    pub fn new() -> (r: NotificationHub)
        ensures
            hub_wf(r@),
            r@.queue == Seq::<Notification>::empty(),
            r@.history == Seq::<Notification>::empty(),
            r@.clients == Seq::<ClientView>::empty(),
            !r@.active,
            r@.next_id == 0,
    {
        let r = NotificationHub {
            queue: VecDeque::new(),
            history: VecDeque::new(),
            clients: Vec::new(),
            active: false,
            next_id: 0,
        };
        assert(r@.clients =~= Seq::<ClientView>::empty());
        r
    }

    /// Appends a notification at the back of the queue.
    pub fn push(&mut self, n: Notification)
        ensures
            hub_wf(old(self)@) ==> hub_wf(final(self)@),
            final(self)@ == (HubView { queue: old(self)@.queue.push(n), ..old(self)@ }),
    {
        self.queue.push_back(n);
    }

    pub fn is_active(&self) -> (r: bool)
        ensures
            r == self@.active,
    {
        self.active
    }

    pub fn queue_len(&self) -> (r: usize)
        ensures
            r == self@.queue.len(),
    {
        self.queue.len()
    }

    pub fn history_len(&self) -> (r: usize)
        ensures
            r == self@.history.len(),
    {
        self.history.len()
    }

    pub fn client_count(&self) -> (r: usize)
        ensures
            r == self@.clients.len(),
    {
        self.clients.len()
    }

    /// Whether every registered client has finished the current
    /// notification; true when no client is registered.
    pub fn all_finished(&self) -> (r: bool)
        ensures
            r == all_finished(self@.clients),
    {
        let ghost cs = self@.clients;
        let mut i: usize = 0;
        while i < self.clients.len()
            invariant
                cs == self@.clients,
                i <= cs.len(),
                forall|k: int| 0 <= k < i ==> (#[trigger] cs[k]).finished,
            decreases cs.len() - i,
        {
            assert(cs[i as int] == self.clients@[i as int]@);
            if !self.clients[i].finished {
                return false;
            }
            i = i + 1;
        }
        true
    }

    /// The position of the client with id `id`, if it is registered.
    fn position(&self, id: u64) -> (r: Option<usize>)
        ensures
            r matches Some(i) ==> client_index(self@.clients, id) == Some(i as int) && i
                < self@.clients.len(),
            r is None ==> client_index(self@.clients, id) is None,
    {
        let ghost cs = self@.clients;
        let mut i: usize = 0;
        while i < self.clients.len()
            invariant
                cs == self@.clients,
                i <= cs.len(),
                client_index(cs, id) == index_from(cs, id, i as nat),
            decreases cs.len() - i,
        {
            assert(cs[i as int] == self.clients@[i as int]@);
            if self.clients[i].id == id {
                return Some(i);
            }
            i = i + 1;
        }
        None
    }

    /// Registers a new client, finished and with nothing to send, and
    /// returns its id; `None` once every id has been issued.
    pub fn register_client(&mut self) -> (r: Option<u64>)
        ensures
            hub_wf(old(self)@) ==> hub_wf(final(self)@),
            old(self)@.next_id < u64::MAX ==> r == Some(old(self)@.next_id) && final(self)@ == (
            HubView {
                clients: old(self)@.clients.push(
                    ClientView { id: old(self)@.next_id, queue: Seq::empty(), finished: true },
                ),
                next_id: (old(self)@.next_id + 1) as u64,
                ..old(self)@
            }),
            old(self)@.next_id == u64::MAX ==> r is None && final(self)@ == old(self)@,
    {
        if self.next_id == u64::MAX {
            return None;
        }
        let id = self.next_id;
        self.clients.push(DisplayClient { id, queue: VecDeque::new(), finished: true });
        self.next_id = id + 1;
        assert(self@.clients =~= old(self)@.clients.push(
            ClientView { id, queue: Seq::empty(), finished: true },
        ));
        Some(id)
    }

    /// Drops the client with id `id`, if registered. Whether every client
    /// has finished is judged afresh over those that remain, so a client
    /// that leaves never holds the next notification back.
    pub fn remove_client(&mut self, id: u64)
        ensures
            hub_wf(old(self)@) ==> hub_wf(final(self)@),
            final(self)@ == without_client(old(self)@, id),
    {
        match self.position(id) {
            Some(i) => {
                let _ = self.clients.remove(i);
                assert(self@.clients =~= old(self)@.clients.remove(i as int));
            },
            None => {},
        }
    }

    /// Records that the client with id `id` has finished showing its
    /// notification.
    pub fn client_finished(&mut self, id: u64)
        ensures
            hub_wf(old(self)@) ==> hub_wf(final(self)@),
            final(self)@ == with_finished(old(self)@, id),
    {
        match self.position(id) {
            Some(i) => {
                self.clients[i].finished = true;
                assert(self@.clients =~= old(self)@.clients.update(
                    i as int,
                    ClientView { finished: true, ..old(self)@.clients[i as int] },
                ));
            },
            None => {},
        }
    }

    /// Handles a text frame from the client with id `id`: `FINISHED` marks
    /// it finished, anything else is ignored.
    pub fn on_client_text(&mut self, id: u64, text: &str)
        ensures
            hub_wf(old(self)@) ==> hub_wf(final(self)@),
            text@ == "FINISHED"@ ==> final(self)@ == with_finished(old(self)@, id),
            text@ != "FINISHED"@ ==> final(self)@ == old(self)@,
    {
        if same_text(text, "FINISHED") {
            self.client_finished(id);
        }
    }

    /// Takes the next payload waiting for the client with id `id`.
    pub fn take_pending(&mut self, id: u64) -> (r: Option<Notification>)
        ensures
            hub_wf(old(self)@) ==> hub_wf(final(self)@),
            match client_index(old(self)@.clients, id) {
                Some(i) => if old(self)@.clients[i].queue.len() > 0 {
                    &&& r == Some(old(self)@.clients[i].queue[0])
                    &&& final(self)@ == (HubView {
                        clients: old(self)@.clients.update(
                            i,
                            ClientView {
                                queue: old(self)@.clients[i].queue.drop_first(),
                                ..old(self)@.clients[i]
                            },
                        ),
                        ..old(self)@
                    })
                } else {
                    r is None && final(self)@ == old(self)@
                },
                None => r is None && final(self)@ == old(self)@,
            },
    {
        match self.position(id) {
            Some(i) => {
                let r = self.clients[i].queue.pop_front();
                assert(self@.clients =~= if old(self)@.clients[i as int].queue.len() > 0 {
                    old(self)@.clients.update(
                        i as int,
                        ClientView {
                            queue: old(self)@.clients[i as int].queue.drop_first(),
                            ..old(self)@.clients[i as int]
                        },
                    )
                } else {
                    old(self)@.clients
                });
                r
            },
            None => None,
        }
    }

    /// Hands `n` to every registered client. Returns whether there was any.
    fn dispatch(&mut self, n: &Notification) -> (r: bool)
        ensures
            final(self)@ == (HubView { clients: dispatched(old(self)@.clients, *n), ..old(self)@ }),
            r == (old(self)@.clients.len() > 0),
    {
        let ghost cs = old(self)@.clients;
        let len = self.clients.len();
        let mut i: usize = 0;
        while i < len
            invariant
                len == cs.len(),
                i <= len,
                self.clients@.len() == len,
                self.queue@ == old(self)@.queue,
                self.history@ == old(self)@.history,
                self.active == old(self)@.active,
                self.next_id == old(self)@.next_id,
                forall|k: int| 0 <= k < i ==> #[trigger] self.clients@[k]@ == dispatched(cs, *n)[k],
                forall|k: int| i <= k < len ==> #[trigger] self.clients@[k]@ == cs[k],
            decreases len - i,
        {
            let copy = n.duplicate();
            let ghost before = self.clients@;
            assert(before[i as int]@ == cs[i as int]);
            self.clients[i].queue.push_back(copy);
            assert(self.clients@[i as int].queue@ == cs[i as int].queue.push(*n));
            assert(self.clients@[i as int].id == cs[i as int].id);
            self.clients[i].finished = false;
            assert(self.clients@[i as int].queue@ == cs[i as int].queue.push(*n));
            assert(forall|k: int| 0 <= k < len && k != i ==> self.clients@[k] == before[k]);
            assert(self.clients@[i as int]@ == dispatched(cs, *n)[i as int]);
            i = i + 1;
        }
        assert(self@.clients =~= dispatched(cs, *n));
        len > 0
    }

    /// One step of the scheduler, which the caller runs at a fixed
    /// interval. A notification that starts has its chat text, if any,
    /// queued on `chat` for `channel`.
    pub fn tick(&mut self, chat: &mut OutboundQueue, channel: &str)
        ensures
            hub_wf(old(self)@) ==> hub_wf(final(self)@),
            final(self)@ == tick_spec(old(self)@),
            final(chat)@ == old(chat)@ + tick_chat(old(self)@, channel@),
    {
        if !self.active {
            match self.queue.pop_front() {
                Some(n) => {
                    match &n.message_chat {
                        Some(text) => {
                            send_message(chat, channel, text.as_str());
                        },
                        None => {},
                    }
                    let shown = self.dispatch(&n);
                    if shown {
                        self.active = true;
                    }
                    self.history.push_back(n);
                    if self.history.len() > HISTORY_LEN {
                        let _ = self.history.pop_front();
                    }
                    assert(self@.history =~= remembered(old(self)@.history, n));
                },
                None => {},
            }
        } else {
            if self.all_finished() {
                self.active = false;
            }
        }
        assert(final(chat)@ =~= old(chat)@ + tick_chat(old(self)@, channel@));
    }
}

/// The hub with one more notification queued behind the others, `n`.
pub open spec fn queued(old_hub: HubView, new_hub: HubView, n: Notification) -> bool {
    new_hub == (HubView { queue: old_hub.queue.push(n), ..old_hub })
}

/// Queues the follow notification for `user_name`.
pub fn add_follow_notification(hub: &mut NotificationHub, user_name: &str)
    ensures
        hub_wf(old(hub)@) ==> hub_wf(final(hub)@),
        final(hub)@.queue.len() > 0,
        queued(old(hub)@, final(hub)@, final(hub)@.queue.last()),
        is_follow_notification(final(hub)@.queue.last(), user_name@),
{
    hub.push(follow_notification(user_name));
}

/// Queues the subscription notification for `user_name`.
pub fn add_subscription_notification(hub: &mut NotificationHub, user_name: &str)
    ensures
        hub_wf(old(hub)@) ==> hub_wf(final(hub)@),
        final(hub)@.queue.len() > 0,
        queued(old(hub)@, final(hub)@, final(hub)@.queue.last()),
        is_subscription_notification(final(hub)@.queue.last(), user_name@),
{
    hub.push(subscription_notification(user_name));
}

/// Queues a notification of type `SubscriptionExt` that shows nothing yet.
pub fn add_subscription_ext_notification(hub: &mut NotificationHub)
    ensures
        hub_wf(old(hub)@) ==> hub_wf(final(hub)@),
        final(hub)@.queue.len() > 0,
        queued(old(hub)@, final(hub)@, final(hub)@.queue.last()),
        is_blank(final(hub)@.queue.last(), NotificationType::SubscriptionExt),
{
    hub.push(Notification::blank(NotificationType::SubscriptionExt));
}

/// Queues a notification of type `SubscriptionGift` that shows nothing yet.
pub fn add_subscription_gift_notification(hub: &mut NotificationHub)
    ensures
        hub_wf(old(hub)@) ==> hub_wf(final(hub)@),
        final(hub)@.queue.len() > 0,
        queued(old(hub)@, final(hub)@, final(hub)@.queue.last()),
        is_blank(final(hub)@.queue.last(), NotificationType::SubscriptionGift),
{
    hub.push(Notification::blank(NotificationType::SubscriptionGift));
}

/// Queues a notification of type `SubscriptionGiftReceived` that shows nothing yet.
pub fn add_subscription_gift_received_notification(hub: &mut NotificationHub)
    ensures
        hub_wf(old(hub)@) ==> hub_wf(final(hub)@),
        final(hub)@.queue.len() > 0,
        queued(old(hub)@, final(hub)@, final(hub)@.queue.last()),
        is_blank(final(hub)@.queue.last(), NotificationType::SubscriptionGiftReceived),
{
    hub.push(Notification::blank(NotificationType::SubscriptionGiftReceived));
}

/// Queues a notification of type `Bits` that shows nothing yet.
pub fn add_bits_notification(hub: &mut NotificationHub)
    ensures
        hub_wf(old(hub)@) ==> hub_wf(final(hub)@),
        final(hub)@.queue.len() > 0,
        queued(old(hub)@, final(hub)@, final(hub)@.queue.last()),
        is_blank(final(hub)@.queue.last(), NotificationType::Bits),
{
    hub.push(Notification::blank(NotificationType::Bits));
}

/// Queues a notification of type `Raid` that shows nothing yet.
pub fn add_raid_notification(hub: &mut NotificationHub)
    ensures
        hub_wf(old(hub)@) ==> hub_wf(final(hub)@),
        final(hub)@.queue.len() > 0,
        queued(old(hub)@, final(hub)@, final(hub)@.queue.last()),
        is_blank(final(hub)@.queue.last(), NotificationType::Raid),
{
    hub.push(Notification::blank(NotificationType::Raid));
}

/// Queues a notification of type `ChannelRedemption` that shows nothing yet.
pub fn add_channel_redemption_notification(hub: &mut NotificationHub)
    ensures
        hub_wf(old(hub)@) ==> hub_wf(final(hub)@),
        final(hub)@.queue.len() > 0,
        queued(old(hub)@, final(hub)@, final(hub)@.queue.last()),
        is_blank(final(hub)@.queue.last(), NotificationType::ChannelRedemption),
{
    hub.push(Notification::blank(NotificationType::ChannelRedemption));
}

/// Single flight: a scheduler step hands a notification to the clients only
/// when no notification is active and every registered client has finished
/// the one before; each client gets it behind what it already had queued,
/// so every client receives the notifications in queue order.
pub proof fn lemma_single_flight(v: HubView)
    requires
        hub_wf(v),
    ensures
        tick_spec(v).clients != v.clients ==> !v.active && v.queue.len() > 0 && all_finished(
            v.clients,
        ),
        !v.active && v.queue.len() > 0 ==> forall|i: int|
            0 <= i < v.clients.len() ==> (#[trigger] tick_spec(v).clients[i]).queue
                == v.clients[i].queue.push(v.queue[0]),
        hub_wf(tick_spec(v)),
{
    if !v.active && v.queue.len() > 0 {
        let w = tick_spec(v);
        assert forall|i: int, j: int| 0 <= i < j < w.clients.len() implies (
        #[trigger] w.clients[i]).id < (#[trigger] w.clients[j]).id by {
            assert(w.clients[i].id == v.clients[i].id);
            assert(w.clients[j].id == v.clients[j].id);
        }
        assert forall|i: int| 0 <= i < w.clients.len() implies (#[trigger] w.clients[i]).id
            < w.next_id by {
            assert(w.clients[i].id == v.clients[i].id);
        }
    }
}

/// A client that leaves while a notification is active no longer counts:
/// once every remaining client has finished, the next scheduler step ends
/// the notification, and the step after that starts the next one.
pub proof fn lemma_leaving_client_releases(v: HubView, id: u64)
    requires
        hub_wf(v),
        v.active,
        forall|i: int| 0 <= i < v.clients.len() && (#[trigger] v.clients[i]).id != id ==> v.clients[i].finished,
    ensures
        !tick_spec(without_client(v, id)).active,
        tick_spec(without_client(v, id)).queue == v.queue,
        v.queue.len() > 0 ==> tick_spec(tick_spec(without_client(v, id))).queue
            == v.queue.drop_first(),
{
    lemma_index_from(v.clients, id, 0);
    let w = without_client(v, id);
    assert forall|i: int| 0 <= i < w.clients.len() implies (#[trigger] w.clients[i]).finished by {
        match client_index(v.clients, id) {
            Some(k) => {
                if i < k {
                    assert(w.clients[i] == v.clients[i]);
                    assert(v.clients[i].id < v.clients[k].id);
                } else {
                    assert(w.clients[i] == v.clients[i + 1]);
                    assert(v.clients[k].id < v.clients[i + 1].id);
                }
            },
            None => {},
        }
    }
}

/// With no client registered, starting a notification does not make the
/// hub active: the notification is played to nobody, and the next step
/// goes straight on to the one after it.
pub proof fn lemma_vacuous_dispatch(v: HubView)
    requires
        hub_wf(v),
        !v.active,
        v.queue.len() > 0,
        v.clients.len() == 0,
    ensures
        !tick_spec(v).active,
        tick_spec(v).queue == v.queue.drop_first(),
        tick_spec(v).history.last() == v.queue[0],
{
}

} // verus!
