use crate::error::Error;
use crate::hook_types::HookRoot;
use crate::hook_types::hook_wf;
use crate::text::phone_of;
use crate::text::phone_prefix;
use crate::text::seq_contains;
use crate::text::lower_of;
use crate::timestamp::Timestamp;
use vstd::prelude::*;

verus! {

// ---------------------------------------------------------------------------
// Inbound events
// ---------------------------------------------------------------------------

/// One inbound event from the messaging gateway.
#[derive(Debug, Clone)]
pub enum Message {
    Text(ReceivedMessage),
    Image(ReceivedMessage),
    StateInstance(String),
    Empty,
}

/// The payload of an inbound event: for an image, `message` is the file
/// reference; for a text, the raw message.
#[derive(Debug, Clone)]
pub struct ReceivedMessage {
    pub chat_id: String,
    pub customer_name: String,
    pub message: String,
}

impl Message {
    /// Classify one webhook call as an inbound event: an incoming message
    /// becomes a text or image event with its sender, an instance status
    /// change carries the status, and everything else is empty.
    pub fn from_hook(m: HookRoot) -> (r: Message)
        requires
            hook_wf(m),
        ensures
            m.type_webhook@ == "incomingMessageReceived"@ ==> (match (m.sender_data, m.message_data) {
                (Some(sd), Some(md)) => {
                    &&& md.type_message@ == "imageMessage"@ ==> (match r {
                        Message::Image(rm) => rm.chat_id@ == sd.chat_id@ && rm.customer_name@
                            == sd.sender_name@ && (match md.file_message_data {
                            Some(f) => rm.message@ == f.download_url@,
                            None => false,
                        }),
                        _ => false,
                    })
                    &&& md.type_message@ != "imageMessage"@ && md.type_message@ == "textMessage"@
                        ==> (match r {
                        Message::Text(rm) => rm.chat_id@ == sd.chat_id@ && rm.customer_name@
                            == sd.sender_name@ && (match md.text_message_data {
                            Some(t) => rm.message@ == t.text_message@,
                            None => false,
                        }),
                        _ => false,
                    })
                    &&& md.type_message@ != "imageMessage"@ && md.type_message@ != "textMessage"@
                        ==> r is Empty
                },
                _ => false,
            }),
            m.type_webhook@ != "incomingMessageReceived"@ && m.type_webhook@
                == "statusInstanceChanged"@ ==> (match (m.status_instance, r) {
                (Some(s), Message::StateInstance(t)) => t@ == s@,
                _ => false,
            }),
            m.type_webhook@ != "incomingMessageReceived"@ && m.type_webhook@
                != "statusInstanceChanged"@ ==> r is Empty,
    {
        if crate::text::str_eq(m.type_webhook.as_str(), "incomingMessageReceived") {
            match (m.sender_data, m.message_data) {
                (Some(sd), Some(md)) => {
                    if crate::text::str_eq(md.type_message.as_str(), "imageMessage") {
                        match md.file_message_data {
                            Some(f) => Message::Image(
                                ReceivedMessage {
                                    chat_id: sd.chat_id,
                                    customer_name: sd.sender_name,
                                    message: f.download_url,
                                },
                            ),
                            None => {
                                proof {
                                    assert(false);
                                }
                                Message::Empty
                            }
                        }
                    } else if crate::text::str_eq(md.type_message.as_str(), "textMessage") {
                        match md.text_message_data {
                            Some(t) => Message::Text(
                                ReceivedMessage {
                                    chat_id: sd.chat_id,
                                    customer_name: sd.sender_name,
                                    message: t.text_message,
                                },
                            ),
                            None => {
                                proof {
                                    assert(false);
                                }
                                Message::Empty
                            }
                        }
                    } else {
                        Message::Empty
                    }
                }
                _ => {
                    proof {
                        assert(false);
                    }
                    Message::Empty
                }
            }
        } else if crate::text::str_eq(m.type_webhook.as_str(), "statusInstanceChanged") {
            match m.status_instance {
                Some(s) => Message::StateInstance(s),
                None => {
                    proof {
                        assert(false);
                    }
                    Message::Empty
                }
            }
        } else {
            Message::Empty
        }
    }
}

// ---------------------------------------------------------------------------
// The session and its mathematical model
// ---------------------------------------------------------------------------

/// The phase a session is in.  It only ever advances, in declaration order.
#[derive(Debug, Clone, Copy, PartialEq, Eq, Structural)]
pub enum StateTag {
    FilesReceiving,
    PaperRequested,
    SizeRequested,
    SizeSelected,
}

/// The position of a phase in the forward order of the state machine.
pub open spec fn tag_idx(t: StateTag) -> int {
    match t {
        StateTag::FilesReceiving => 0,
        StateTag::PaperRequested => 1,
        StateTag::SizeRequested => 2,
        StateTag::SizeSelected => 3,
    }
}

/// The model of one session: every field a conversation carries, with
/// `paper`, `size` and `price` empty until the phase that sets them.
#[verifier::ext_equal]
pub struct Session {
    pub tag: StateTag,
    pub chat_id: Seq<char>,
    pub customer_name: Seq<char>,
    pub files: Seq<Seq<char>>,
    pub paper: Seq<char>,
    pub size: Seq<char>,
    pub price: int,
    pub repeats: int,
    pub last_secs: int,
}

/// The session created for a first event that carries an image.
pub open spec fn fresh_image_session(
    chat_id: Seq<char>,
    customer_name: Seq<char>,
    url: Seq<char>,
    now: int,
) -> Session {
    Session {
        tag: StateTag::FilesReceiving,
        chat_id,
        customer_name,
        files: seq![url],
        paper: Seq::empty(),
        size: Seq::empty(),
        price: 0,
        repeats: 0,
        last_secs: now,
    }
}

/// The session created for a first event that carries a text.
pub open spec fn fresh_text_session(
    chat_id: Seq<char>,
    customer_name: Seq<char>,
    now: int,
) -> Session {
    Session {
        tag: StateTag::FilesReceiving,
        chat_id,
        customer_name,
        files: Seq::empty(),
        paper: Seq::empty(),
        size: Seq::empty(),
        price: 0,
        repeats: 0,
        last_secs: now,
    }
}

/// A session after one more uploaded file.
pub open spec fn with_file(s: Session, url: Seq<char>, now: int) -> Session {
    Session { files: s.files.push(url), last_secs: now, ..s }
}

/// A session advanced to the paper-selection phase.
pub open spec fn to_paper_requested(s: Session, now: int) -> Session {
    Session { tag: StateTag::PaperRequested, repeats: 0, last_secs: now, ..s }
}

/// A session advanced to the size-selection phase, with the paper chosen.
pub open spec fn with_paper(s: Session, paper: Seq<char>, now: int) -> Session {
    Session { tag: StateTag::SizeRequested, paper, repeats: 0, last_secs: now, ..s }
}

/// A session advanced to the final phase, with size and price chosen.
pub open spec fn with_size(s: Session, size: Seq<char>, price: int, now: int) -> Session {
    Session { tag: StateTag::SizeSelected, size, price, repeats: 0, last_secs: now, ..s }
}

/// A session after a sweep-driven re-prompt: one more repeat, fresh activity.
pub open spec fn bumped(s: Session, now: int) -> Session {
    Session { repeats: s.repeats + 1, last_secs: now, ..s }
}

// ---------------------------------------------------------------------------
// Input classification
// ---------------------------------------------------------------------------

/// The message signals cancellation, in any phase.
pub open spec fn is_cancel_text(m: Seq<char>) -> bool {
    seq_contains(lower_of(m), "отмен"@)
}

/// The message signals that all files were sent.
pub open spec fn is_done_text(m: Seq<char>) -> bool {
    seq_contains(lower_of(m), "все"@) || seq_contains(lower_of(m), "всё"@)
}

/// The message signals that the order is ready to submit.
pub open spec fn is_ready_text(m: Seq<char>) -> bool {
    seq_contains(lower_of(m), "готов"@)
}

// ---------------------------------------------------------------------------
// The session as stored and mutated
// ---------------------------------------------------------------------------

/// One conversation's in-progress order.  The variant is the phase; fields
/// appear in the phase that first sets them.
#[derive(Debug, Clone, PartialEq, Eq)]
pub enum OrderState {
    FilesReceiving {
        chat_id: String,
        customer_name: String,
        files: Vec<String>,
        repeats: i32,
        last_msg_time: Timestamp,
    },
    PaperRequested {
        chat_id: String,
        customer_name: String,
        files: Vec<String>,
        repeats: i32,
        last_msg_time: Timestamp,
    },
    SizeRequested {
        chat_id: String,
        customer_name: String,
        paper: String,
        files: Vec<String>,
        repeats: i32,
        last_msg_time: Timestamp,
    },
    SizeSelected {
        chat_id: String,
        customer_name: String,
        paper: String,
        size: String,
        price: i32,
        files: Vec<String>,
        repeats: i32,
        last_msg_time: Timestamp,
    },
}

impl View for OrderState {
    type V = Session;

    open spec fn view(&self) -> Session {
        match self {
            OrderState::FilesReceiving { chat_id, customer_name, files, repeats, last_msg_time } => Session {
                tag: StateTag::FilesReceiving,
                chat_id: chat_id@,
                customer_name: customer_name@,
                files: files.deep_view(),
                paper: Seq::empty(),
                size: Seq::empty(),
                price: 0,
                repeats: *repeats as int,
                last_secs: last_msg_time.secs as int,
            },
            OrderState::PaperRequested { chat_id, customer_name, files, repeats, last_msg_time } => Session {
                tag: StateTag::PaperRequested,
                chat_id: chat_id@,
                customer_name: customer_name@,
                files: files.deep_view(),
                paper: Seq::empty(),
                size: Seq::empty(),
                price: 0,
                repeats: *repeats as int,
                last_secs: last_msg_time.secs as int,
            },
            OrderState::SizeRequested {
                chat_id,
                customer_name,
                paper,
                files,
                repeats,
                last_msg_time,
            } => Session {
                tag: StateTag::SizeRequested,
                chat_id: chat_id@,
                customer_name: customer_name@,
                files: files.deep_view(),
                paper: paper@,
                size: Seq::empty(),
                price: 0,
                repeats: *repeats as int,
                last_secs: last_msg_time.secs as int,
            },
            OrderState::SizeSelected {
                chat_id,
                customer_name,
                paper,
                size,
                price,
                files,
                repeats,
                last_msg_time,
            } => Session {
                tag: StateTag::SizeSelected,
                chat_id: chat_id@,
                customer_name: customer_name@,
                files: files.deep_view(),
                paper: paper@,
                size: size@,
                price: *price as int,
                repeats: *repeats as int,
                last_secs: last_msg_time.secs as int,
            },
        }
    }
}

impl DeepView for OrderState {
    type V = Session;

    open spec fn deep_view(&self) -> Session {
        self.view()
    }
}

/// Copy every string of a vector, keeping the characters.
pub(crate) fn clone_strings(v: &Vec<String>) -> (r: Vec<String>)
    ensures
        r.deep_view() == v.deep_view(),
{
    let mut r: Vec<String> = Vec::new();
    let mut i: usize = 0;
    while i < v.len()
        invariant
            0 <= i <= v.len(),
            r@.len() == i,
            forall|j: int| 0 <= j < i ==> r@[j]@ == v@[j]@,
        decreases v.len() - i,
    {
        r.push(v[i].clone());
        i += 1;
    }
    proof {
        assert(r.deep_view() =~= v.deep_view());
    }
    r
}

impl OrderState {
    /// A new session for a conversation whose first event is an image.
    pub fn from_img_msg(msg: ReceivedMessage, now: Timestamp) -> (o: OrderState)
        ensures
            o@ == fresh_image_session(msg.chat_id@, msg.customer_name@, msg.message@, now.secs as int),
    {
        let o = OrderState::FilesReceiving {
            chat_id: msg.chat_id,
            customer_name: msg.customer_name,
            files: vec![msg.message],
            repeats: 0,
            last_msg_time: now,
        };
        proof {
            assert(o@.files =~= seq![msg.message@]);
            assert(o@ =~= fresh_image_session(
                msg.chat_id@,
                msg.customer_name@,
                msg.message@,
                now.secs as int,
            ));
        }
        o
    }

    /// A new session for a conversation whose first event is a text.
    pub fn from_txt_msg(msg: ReceivedMessage, now: Timestamp) -> (o: OrderState)
        ensures
            o@ == fresh_text_session(msg.chat_id@, msg.customer_name@, now.secs as int),
    {
        let o = OrderState::FilesReceiving {
            chat_id: msg.chat_id,
            customer_name: msg.customer_name,
            files: Vec::new(),
            repeats: 0,
            last_msg_time: now,
        };
        proof {
            assert(o@.files =~= Seq::<Seq<char>>::empty());
            assert(o@ =~= fresh_text_session(msg.chat_id@, msg.customer_name@, now.secs as int));
        }
        o
    }

    /// The conversation id this session belongs to.
    pub fn get_chat_id(&self) -> (r: String)
        ensures
            r@ == self@.chat_id,
    {
        match self {
            OrderState::FilesReceiving { chat_id, .. } => chat_id.clone(),
            OrderState::PaperRequested { chat_id, .. } => chat_id.clone(),
            OrderState::SizeRequested { chat_id, .. } => chat_id.clone(),
            OrderState::SizeSelected { chat_id, .. } => chat_id.clone(),
        }
    }

    /// The conversation id, borrowed.
    pub fn chat_id_str(&self) -> (r: &str)
        ensures
            r@ == self@.chat_id,
    {
        match self {
            OrderState::FilesReceiving { chat_id, .. } => chat_id.as_str(),
            OrderState::PaperRequested { chat_id, .. } => chat_id.as_str(),
            OrderState::SizeRequested { chat_id, .. } => chat_id.as_str(),
            OrderState::SizeSelected { chat_id, .. } => chat_id.as_str(),
        }
    }

    /// The chosen paper while a size is being requested, and empty in every
    /// other phase.
    pub fn get_paper(&self) -> (r: &str)
        ensures
            self@.tag == StateTag::SizeRequested ==> r@ == self@.paper,
            self@.tag != StateTag::SizeRequested ==> r@ == Seq::<char>::empty(),
    {
        proof {
            reveal_strlit("");
            assert(""@ =~= Seq::<char>::empty());
        }
        match self {
            OrderState::FilesReceiving { .. } => "",
            OrderState::PaperRequested { .. } => "",
            OrderState::SizeRequested { paper, .. } => paper.as_str(),
            OrderState::SizeSelected { .. } => "",
        }
    }

    /// The moment of the last activity on this session.
    pub fn last_timestamp(&self) -> (t: Timestamp)
        ensures
            t.secs as int == self@.last_secs,
    {
        match self {
            OrderState::FilesReceiving { last_msg_time, .. } => *last_msg_time,
            OrderState::PaperRequested { last_msg_time, .. } => *last_msg_time,
            OrderState::SizeRequested { last_msg_time, .. } => *last_msg_time,
            OrderState::SizeSelected { last_msg_time, .. } => *last_msg_time,
        }
    }

    /// Seconds since the last activity, against the wall clock.
    pub fn last_time_sec(&self) -> u64 {
        self.last_timestamp().elapsed()
    }

    /// How often the sweep has re-prompted this session in its current phase.
    pub fn repeats(&self) -> (r: i32)
        ensures
            r as int == self@.repeats,
    {
        match self {
            OrderState::FilesReceiving { repeats, .. } => *repeats,
            OrderState::PaperRequested { repeats, .. } => *repeats,
            OrderState::SizeRequested { repeats, .. } => *repeats,
            OrderState::SizeSelected { repeats, .. } => *repeats,
        }
    }

    /// Append an uploaded file and refresh the activity time; the phase and
    /// everything else stay as they were.
    pub fn add_image(&mut self, url: String, now: Timestamp)
        ensures
            final(self)@ == with_file(old(self)@, url@, now.secs as int),
    {
        match self {
            OrderState::FilesReceiving { files, last_msg_time, .. } => {
                files.push(url);
                *last_msg_time = now;
            }
            OrderState::PaperRequested { files, last_msg_time, .. } => {
                files.push(url);
                *last_msg_time = now;
            }
            OrderState::SizeRequested { files, last_msg_time, .. } => {
                files.push(url);
                *last_msg_time = now;
            }
            OrderState::SizeSelected { files, last_msg_time, .. } => {
                files.push(url);
                *last_msg_time = now;
            }
        }
        proof {
            assert(self@.files =~= old(self)@.files.push(url@));
            assert(self@ =~= with_file(old(self)@, url@, now.secs as int));
        }
    }

    /// The session holds at least one uploaded file.
    pub fn have_files(&self) -> (r: bool)
        ensures
            r == (self@.files.len() > 0),
    {
        match self {
            OrderState::FilesReceiving { files, .. } => files.len() > 0,
            OrderState::PaperRequested { files, .. } => files.len() > 0,
            OrderState::SizeRequested { files, .. } => files.len() > 0,
            OrderState::SizeSelected { files, .. } => files.len() > 0,
        }
    }

    /// How many files the session holds.
    pub fn files_count(&self) -> (r: usize)
        ensures
            r as int == self@.files.len(),
    {
        match self {
            OrderState::FilesReceiving { files, .. } => files.len(),
            OrderState::PaperRequested { files, .. } => files.len(),
            OrderState::SizeRequested { files, .. } => files.len(),
            OrderState::SizeSelected { files, .. } => files.len(),
        }
    }

    /// The phase this session is in.
    pub fn state_tag(&self) -> (t: StateTag)
        ensures
            t == self@.tag,
    {
        match self {
            OrderState::FilesReceiving { .. } => StateTag::FilesReceiving,
            OrderState::PaperRequested { .. } => StateTag::PaperRequested,
            OrderState::SizeRequested { .. } => StateTag::SizeRequested,
            OrderState::SizeSelected { .. } => StateTag::SizeSelected,
        }
    }

    /// An exact copy of this session.
    pub fn duplicate(&self) -> (r: OrderState)
        ensures
            r@ == self@,
    {
        let r = match self {
            OrderState::FilesReceiving { chat_id, customer_name, files, repeats, last_msg_time } => OrderState::FilesReceiving {
                chat_id: chat_id.clone(),
                customer_name: customer_name.clone(),
                files: clone_strings(files),
                repeats: *repeats,
                last_msg_time: *last_msg_time,
            },
            OrderState::PaperRequested { chat_id, customer_name, files, repeats, last_msg_time } => OrderState::PaperRequested {
                chat_id: chat_id.clone(),
                customer_name: customer_name.clone(),
                files: clone_strings(files),
                repeats: *repeats,
                last_msg_time: *last_msg_time,
            },
            OrderState::SizeRequested {
                chat_id,
                customer_name,
                paper,
                files,
                repeats,
                last_msg_time,
            } => OrderState::SizeRequested {
                chat_id: chat_id.clone(),
                customer_name: customer_name.clone(),
                paper: paper.clone(),
                files: clone_strings(files),
                repeats: *repeats,
                last_msg_time: *last_msg_time,
            },
            OrderState::SizeSelected {
                chat_id,
                customer_name,
                paper,
                size,
                price,
                files,
                repeats,
                last_msg_time,
            } => OrderState::SizeSelected {
                chat_id: chat_id.clone(),
                customer_name: customer_name.clone(),
                paper: paper.clone(),
                size: size.clone(),
                price: *price,
                files: clone_strings(files),
                repeats: *repeats,
                last_msg_time: *last_msg_time,
            },
        };
        proof {
            assert(r@ =~= self@);
        }
        r
    }

    /// Advance from receiving files to requesting a paper type; the repeat
    /// counter starts over.  In any other phase the transition is refused.
    pub fn into_order_with_paper_requested(self, now: Timestamp) -> (r: Result<OrderState, Error>)
        ensures
            self@.tag == StateTag::FilesReceiving ==> match r {
                Ok(o) => o@ == to_paper_requested(self@, now.secs as int),
                Err(_) => false,
            },
            self@.tag != StateTag::FilesReceiving ==> match r {
                Ok(_) => false,
                Err(e) => e == Error::OrderWrongState,
            },
    {
        match self {
            OrderState::FilesReceiving { chat_id, customer_name, files, .. } => {
                let o = OrderState::PaperRequested {
                    chat_id,
                    customer_name,
                    files,
                    repeats: 0,
                    last_msg_time: now,
                };
                Ok(o)
            }
            OrderState::PaperRequested { .. } => Err(Error::OrderWrongState),
            OrderState::SizeRequested { .. } => Err(Error::OrderWrongState),
            OrderState::SizeSelected { .. } => Err(Error::OrderWrongState),
        }
    }

    /// Advance from requesting a paper type to requesting a size, recording
    /// the chosen paper; the repeat counter starts over.
    pub fn into_order_with_paper(self, paper: String, now: Timestamp) -> (r: Result<
        OrderState,
        Error,
    >)
        ensures
            self@.tag == StateTag::PaperRequested ==> match r {
                Ok(o) => o@ == with_paper(self@, paper@, now.secs as int),
                Err(_) => false,
            },
            self@.tag != StateTag::PaperRequested ==> match r {
                Ok(_) => false,
                Err(e) => e == Error::OrderWrongState,
            },
    {
        match self {
            OrderState::PaperRequested { chat_id, customer_name, files, .. } => {
                let o = OrderState::SizeRequested {
                    chat_id,
                    customer_name,
                    paper,
                    files,
                    repeats: 0,
                    last_msg_time: now,
                };
                Ok(o)
            }
            OrderState::FilesReceiving { .. } => Err(Error::OrderWrongState),
            OrderState::SizeRequested { .. } => Err(Error::OrderWrongState),
            OrderState::SizeSelected { .. } => Err(Error::OrderWrongState),
        }
    }

    /// Advance from requesting a size to the final phase, recording size and
    /// price; the repeat counter starts over.
    pub fn into_order_with_size(self, size: String, price: i32, now: Timestamp) -> (r: Result<
        OrderState,
        Error,
    >)
        ensures
            self@.tag == StateTag::SizeRequested ==> match r {
                Ok(o) => o@ == with_size(self@, size@, price as int, now.secs as int),
                Err(_) => false,
            },
            self@.tag != StateTag::SizeRequested ==> match r {
                Ok(_) => false,
                Err(e) => e == Error::OrderWrongState,
            },
    {
        match self {
            OrderState::SizeRequested { chat_id, customer_name, paper, files, .. } => {
                let o = OrderState::SizeSelected {
                    chat_id,
                    customer_name,
                    paper,
                    size,
                    price,
                    files,
                    repeats: 0,
                    last_msg_time: now,
                };
                Ok(o)
            }
            OrderState::FilesReceiving { .. } => Err(Error::OrderWrongState),
            OrderState::PaperRequested { .. } => Err(Error::OrderWrongState),
            OrderState::SizeSelected { .. } => Err(Error::OrderWrongState),
        }
    }

    /// Record one sweep-driven re-prompt: the repeat counter goes up by one
    /// and the activity time is refreshed, in every phase.
    pub fn requested(&mut self, now: Timestamp)
        requires
            old(self)@.repeats < i32::MAX,
        ensures
            final(self)@ == bumped(old(self)@, now.secs as int),
    {
        match self {
            OrderState::FilesReceiving { repeats, last_msg_time, .. } => {
                *repeats = *repeats + 1;
                *last_msg_time = now;
            }
            OrderState::PaperRequested { repeats, last_msg_time, .. } => {
                *repeats = *repeats + 1;
                *last_msg_time = now;
            }
            OrderState::SizeRequested { repeats, last_msg_time, .. } => {
                *repeats = *repeats + 1;
                *last_msg_time = now;
            }
            OrderState::SizeSelected { repeats, last_msg_time, .. } => {
                *repeats = *repeats + 1;
                *last_msg_time = now;
            }
        }
        proof {
            assert(self@ =~= bumped(old(self)@, now.secs as int));
        }
    }
}

// ---------------------------------------------------------------------------
// The submission payload
// ---------------------------------------------------------------------------

/// The model of a submission payload.
#[verifier::ext_equal]
pub struct OrderMessageV {
    pub phone: Seq<char>,
    pub name: Seq<char>,
    pub paper_type: Seq<char>,
    pub paper_size: Seq<char>,
    pub price: int,
    pub files: Seq<Seq<char>>,
}

/// The payload submitted for a finished session: the phone is the chat id
/// up to the first `'@'`, the rest is what the flow collected.
pub open spec fn order_message_of(s: Session) -> OrderMessageV {
    OrderMessageV {
        phone: phone_of(s.chat_id),
        name: s.customer_name,
        paper_type: s.paper,
        paper_size: s.size,
        price: s.price,
        files: s.files,
    }
}

/// The body of an order submission to the order-processing collaborator.
#[derive(Debug, Clone, PartialEq, Eq)]
pub struct OrderMessage {
    pub phone: String,
    pub name: String,
    pub paper_type: String,
    pub paper_size: String,
    pub price: i32,
    pub files: Vec<String>,
}

impl View for OrderMessage {
    type V = OrderMessageV;

    open spec fn view(&self) -> OrderMessageV {
        OrderMessageV {
            phone: self.phone@,
            name: self.name@,
            paper_type: self.paper_type@,
            paper_size: self.paper_size@,
            price: self.price as int,
            files: self.files.deep_view(),
        }
    }
}

impl OrderState {
    /// The submission payload of a finished session.
    pub fn to_order_message(&self) -> (m: OrderMessage)
        requires
            self@.tag == StateTag::SizeSelected,
        ensures
            m@ == order_message_of(self@),
    {
        match self {
            OrderState::SizeSelected {
                chat_id,
                customer_name,
                paper,
                size,
                price,
                files,
                ..
            } => {
                let phone_part = phone_prefix(chat_id.as_str());
                let m = OrderMessage {
                    phone: phone_part.to_owned(),
                    name: customer_name.clone(),
                    paper_type: paper.clone(),
                    paper_size: size.clone(),
                    price: *price,
                    files: clone_strings(files),
                };
                proof {
                    assert(m@ =~= order_message_of(self@));
                }
                m
            }
            _ => {
                proof {
                    assert(false);
                }
                OrderMessage {
                    phone: String::new(),
                    name: String::new(),
                    paper_type: String::new(),
                    paper_size: String::new(),
                    price: 0,
                    files: Vec::new(),
                }
            }
        }
    }
}

} // verus!
