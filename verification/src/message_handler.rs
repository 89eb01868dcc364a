use crate::config::Config;
use crate::error::Error;
use crate::paper::PaperTypeV;
use crate::paper::names_of;
use crate::paper::sizes_of;
use crate::prompt::Prompt;
use crate::prompt::final_prompt_spec;
use crate::prompt::paper_prompt_spec;
use crate::prompt::ready_text;
use crate::prompt::size_prompt_spec;
use crate::repository::Repository;
use crate::session::Message;
use crate::session::OrderMessageV;
use crate::session::OrderState;
use crate::session::ReceivedMessage;
use crate::session::Session;
use crate::session::StateTag;
use crate::session::bumped;
use crate::session::fresh_image_session;
use crate::session::fresh_text_session;
use crate::session::is_cancel_text;
use crate::session::is_done_text;
use crate::session::is_ready_text;
use crate::session::order_message_of;
use crate::session::tag_idx;
use crate::session::to_paper_requested;
use crate::session::with_file;
use crate::session::with_paper;
use crate::session::with_size;
use crate::text::contains_sub;
use crate::text::lowercase;
use crate::text::parse_selection;
use crate::text::parsed_selection;
use crate::timestamp::Timestamp;
use crate::transport::Transport;
use vstd::prelude::*;

verus! {

// ---------------------------------------------------------------------------
// The fixed texts of the flow
// ---------------------------------------------------------------------------

/// The instruction sent when a conversation starts: upload files, then
/// write the completion word.
pub open spec fn files_instruction_text() -> Seq<char> {
    "Загрузите файлы для печати. Когда закончите с отправкой файлов, напишите: все"@
}

/// The notice for an explicit cancellation.
pub open spec fn cancel_text() -> Seq<char> {
    "Ваш заказ отменен"@
}

/// The notice sent while a submission is in flight.
pub open spec fn wait_text() -> Seq<char> {
    "Пожалуйста ожидайте, Ваш заказ обрабатывается"@
}

/// The notice for a failed submission.
pub open spec fn submit_error_text() -> Seq<char> {
    "Не удалось отправить Ваш заказ, попробуйте еще раз"@
}

/// The notice for an eviction after too long a wait.
pub open spec fn timeout_cancel_text() -> Seq<char> {
    "Заказ отменен, из-за длительного ожидания"@
}

/// The prompt that matches a session's current phase: what the sweep
/// re-sends and what an image upload re-issues.
pub open spec fn phase_prompt(s: Session, cat: Seq<PaperTypeV>) -> Seq<char> {
    match s.tag {
        StateTag::FilesReceiving => files_instruction_text(),
        StateTag::PaperRequested => paper_prompt_spec(names_of(cat)),
        StateTag::SizeRequested => size_prompt_spec(sizes_of(cat, s.paper)),
        StateTag::SizeSelected => ready_text(),
    }
}

/// The paper a size lookup for this session uses: the chosen paper while
/// a size is requested, and the empty name in every other phase.
pub open spec fn session_paper(s: Session) -> Seq<char> {
    if s.tag == StateTag::SizeRequested {
        s.paper
    } else {
        Seq::empty()
    }
}

// ---------------------------------------------------------------------------
// The state machine's answer to one text event
// ---------------------------------------------------------------------------

/// What one text event does to an existing session: the session afterwards
/// (`None` when it is deleted), whether a submission is attempted, and the
/// texts sent back before any submission outcome notice.
#[verifier::ext_equal]
pub struct TextEffect {
    pub session: Option<Session>,
    pub submits: bool,
    pub replies: Seq<Seq<char>>,
}

/// The transition table for a text event, phase by phase.  Cancellation
/// wins in every phase; an invalid or out-of-range selection leaves the
/// session exactly as it was and re-issues the prompt of the same phase.
pub open spec fn text_step(s: Session, m: Seq<char>, cat: Seq<PaperTypeV>, now: int) -> TextEffect {
    if is_cancel_text(m) {
        TextEffect { session: None, submits: false, replies: seq![cancel_text()] }
    } else {
        match s.tag {
            StateTag::FilesReceiving => {
                if is_done_text(m) && s.files.len() > 0 {
                    TextEffect {
                        session: Some(to_paper_requested(s, now)),
                        submits: false,
                        replies: seq![paper_prompt_spec(names_of(cat))],
                    }
                } else {
                    TextEffect { session: Some(s), submits: false, replies: Seq::empty() }
                }
            },
            StateTag::PaperRequested => {
                let names = names_of(cat);
                match parsed_selection(m) {
                    Some(n) => {
                        if 1 <= n && n <= names.len() {
                            TextEffect {
                                session: Some(with_paper(s, names[n - 1], now)),
                                submits: false,
                                replies: seq![size_prompt_spec(sizes_of(cat, names[n - 1]))],
                            }
                        } else {
                            TextEffect {
                                session: Some(s),
                                submits: false,
                                replies: seq![paper_prompt_spec(names)],
                            }
                        }
                    },
                    None => TextEffect {
                        session: Some(s),
                        submits: false,
                        replies: seq![paper_prompt_spec(names)],
                    },
                }
            },
            StateTag::SizeRequested => {
                let sizes = sizes_of(cat, s.paper);
                match parsed_selection(m) {
                    Some(n) => {
                        if 1 <= n && n <= sizes.len() {
                            TextEffect {
                                session: Some(
                                    with_size(s, sizes[n - 1].size, sizes[n - 1].price, now),
                                ),
                                submits: false,
                                replies: seq![ready_text()],
                            }
                        } else {
                            TextEffect {
                                session: Some(s),
                                submits: false,
                                replies: seq![size_prompt_spec(sizes)],
                            }
                        }
                    },
                    None => TextEffect {
                        session: Some(s),
                        submits: false,
                        replies: seq![size_prompt_spec(sizes)],
                    },
                }
            },
            StateTag::SizeSelected => {
                if is_ready_text(m) && s.files.len() > 0 {
                    TextEffect { session: None, submits: true, replies: seq![wait_text()] }
                } else {
                    TextEffect { session: Some(s), submits: false, replies: seq![ready_text()] }
                }
            },
        }
    }
}

// ---------------------------------------------------------------------------
// What one call observably does
// ---------------------------------------------------------------------------

/// The observable state of the bot: the stored sessions, the texts sent
/// so far, and the submissions attempted so far.
#[verifier::ext_equal]
pub struct BotView {
    pub orders: Map<Seq<char>, Session>,
    pub sent: Seq<(Seq<char>, Seq<char>)>,
    pub submitted: Seq<OrderMessageV>,
}

/// The given texts, each addressed to the given chat.
pub open spec fn replies_to(chat: Seq<char>, rs: Seq<Seq<char>>) -> Seq<(Seq<char>, Seq<char>)> {
    Seq::new(rs.len(), |i: int| (chat, rs[i]))
}

/// The text is the closing notice for some order id.
pub open spec fn is_final_note(t: Seq<char>, addr: Seq<char>, phone: Seq<char>) -> bool {
    exists|id: Seq<char>| t == final_prompt_spec(id, addr, phone)
}

/// Everything one text event does, as seen on the observable state: a new
/// conversation gets a fresh session and the upload instruction; an
/// existing one moves as `text_step` says, with its replies sent in order.
/// On the submission path exactly one submission is attempted and one
/// outcome notice follows, its text depending on the collaborator's answer.
pub open spec fn text_post(
    pre: BotView,
    post: BotView,
    chat: Seq<char>,
    customer: Seq<char>,
    m: Seq<char>,
    cat: Seq<PaperTypeV>,
    addr: Seq<char>,
    phone: Seq<char>,
    now: int,
) -> bool {
    if !pre.orders.contains_key(chat) {
        &&& post.orders == pre.orders.insert(chat, fresh_text_session(chat, customer, now))
        &&& post.sent == pre.sent.push((chat, files_instruction_text()))
        &&& post.submitted == pre.submitted
    } else {
        let s = pre.orders[chat];
        let eff = text_step(s, m, cat, now);
        &&& (match eff.session {
            Some(s2) => {
                if s2.tag == s.tag {
                    post.orders == pre.orders
                } else {
                    post.orders == pre.orders.insert(s2.chat_id, s2)
                }
            },
            None => post.orders == pre.orders.remove(chat),
        })
        &&& (!eff.submits ==> {
            &&& post.sent == pre.sent + replies_to(chat, eff.replies)
            &&& post.submitted == pre.submitted
        })
        &&& (eff.submits ==> {
            &&& post.submitted == pre.submitted.push(order_message_of(s))
            &&& post.sent.len() == pre.sent.len() + eff.replies.len() + 1
            &&& post.sent.subrange(0, post.sent.len() - 1) == pre.sent + replies_to(
                chat,
                eff.replies,
            )
            &&& post.sent.last().0 == chat
            &&& (post.sent.last().1 == submit_error_text() || is_final_note(
                post.sent.last().1,
                addr,
                phone,
            ))
        })
    }
}

/// Everything one image event does: a new conversation gets a fresh
/// session holding the file and the upload instruction; an existing one
/// has the file appended, and is re-prompted for its current phase unless
/// it is still receiving files.
pub open spec fn image_post(
    pre: BotView,
    post: BotView,
    chat: Seq<char>,
    customer: Seq<char>,
    url: Seq<char>,
    cat: Seq<PaperTypeV>,
    now: int,
) -> bool {
    if !pre.orders.contains_key(chat) {
        &&& post.orders == pre.orders.insert(chat, fresh_image_session(chat, customer, url, now))
        &&& post.sent == pre.sent.push((chat, files_instruction_text()))
        &&& post.submitted == pre.submitted
    } else {
        let s = pre.orders[chat];
        &&& post.orders == pre.orders.insert(s.chat_id, with_file(s, url, now))
        &&& (s.tag == StateTag::FilesReceiving ==> post.sent == pre.sent)
        &&& (s.tag != StateTag::FilesReceiving ==> post.sent == pre.sent.push(
            (chat, phase_prompt(s, cat)),
        ))
        &&& post.submitted == pre.submitted
    }
}

// ---------------------------------------------------------------------------
// The dispatcher
// ---------------------------------------------------------------------------

/// The event dispatcher and sweep scheduler: applies the state-machine
/// rules to the store and sends the resulting prompts over the transport.
pub struct Handler<R: Repository, T: Transport> {
    pub repository: R,
    pub transport: T,
    pub prompt: Prompt,
    pub config: Config,
}

impl<R: Repository, T: Transport> Handler<R, T> {
    /// The stored sessions, by chat id.
    pub open spec fn orders(&self) -> Map<Seq<char>, Session> {
        self.repository.orders()
    }

    /// The catalog the prompts are built from.
    pub open spec fn catalog(&self) -> Seq<PaperTypeV> {
        self.prompt.paper@
    }

    /// The observable state: sessions, texts sent, submissions attempted.
    pub open spec fn bot_view(&self) -> BotView {
        BotView {
            orders: self.repository.orders(),
            sent: self.transport.sent(),
            submitted: self.transport.submitted(),
        }
    }

    /// A dispatcher over the given store, transport, prompt generator and
    /// configuration.
    pub fn new(repository: R, transport: T, prompt: Prompt, config: Config) -> (h: Handler<R, T>)
        ensures
            h.repository == repository,
            h.transport == transport,
            h.prompt == prompt,
            h.config == config,
    {
        Handler { repository, transport, prompt, config }
    }

    /// Advance a session out of the file-receiving phase and persist it.
    pub fn paper_requested(&mut self, o: OrderState, now: Timestamp) -> (r: Result<(), Error>)
        ensures
            final(self).transport == old(self).transport,
            final(self).prompt == old(self).prompt,
            final(self).config == old(self).config,
            o@.tag == StateTag::FilesReceiving ==> r is Ok && final(self).orders() == old(self).orders().insert(o@.chat_id, to_paper_requested(o@, now.secs as int)),
            o@.tag != StateTag::FilesReceiving ==> r == Err::<(), Error>(Error::OrderWrongState)
                && final(self).repository == old(self).repository,
    {
        let new_state = o.into_order_with_paper_requested(now)?;
        self.repository.set_order(new_state);
        Ok(())
    }

    /// Read a text as a 1-based paper selection; when it is valid, record
    /// the paper and persist the advanced session, handing the paper back.
    pub fn try_set_paper(&mut self, o: OrderState, message: ReceivedMessage, now: Timestamp) -> (r:
        Result<String, Error>)
        ensures
            final(self).transport == old(self).transport,
            final(self).prompt == old(self).prompt,
            final(self).config == old(self).config,
            ({
                let names = names_of(old(self).catalog());
                match parsed_selection(message.message@) {
                    None => r == Err::<String, Error>(Error::ParseFailed) && final(self).repository
                        == old(self).repository,
                    Some(n) => {
                        if 1 <= n && n <= names.len() {
                            if o@.tag == StateTag::PaperRequested {
                                match r {
                                    Ok(p) => p@ == names[n - 1] && final(self).orders() == old(self).orders().insert(
                                        o@.chat_id,
                                        with_paper(o@, names[n - 1], now.secs as int),
                                    ),
                                    Err(_) => false,
                                }
                            } else {
                                r == Err::<String, Error>(Error::OrderWrongState) && final(self).repository == old(self).repository
                            }
                        } else {
                            r == Err::<String, Error>(Error::PaperInvalid) && final(self).repository == old(self).repository
                        }
                    },
                }
            }),
    {
        let sel = parse_selection(message.message.as_str());
        match sel {
            None => Err(Error::ParseFailed),
            Some(n) => {
                if n == 0 {
                    return Err(Error::PaperInvalid);
                }
                let paper_opt = self.prompt.try_get_paper(n - 1);
                match paper_opt {
                    None => Err(Error::PaperInvalid),
                    Some(paper) => {
                        match o.into_order_with_paper(paper.clone(), now) {
                            Ok(new_state) => {
                                self.repository.set_order(new_state);
                                Ok(paper)
                            },
                            Err(e) => Err(e),
                        }
                    },
                }
            },
        }
    }

    /// Read a text as a 1-based size selection for the session's paper;
    /// when it is valid, record size and price and persist the advanced
    /// session.
    pub fn try_set_size(&mut self, o: OrderState, message: ReceivedMessage, now: Timestamp) -> (r:
        Result<(), Error>)
        ensures
            final(self).transport == old(self).transport,
            final(self).prompt == old(self).prompt,
            final(self).config == old(self).config,
            ({
                let sizes = sizes_of(old(self).catalog(), session_paper(o@));
                match parsed_selection(message.message@) {
                    None => r == Err::<(), Error>(Error::ParseFailed) && final(self).repository
                        == old(self).repository,
                    Some(n) => {
                        if 1 <= n && n <= sizes.len() {
                            if o@.tag == StateTag::SizeRequested {
                                r is Ok && final(self).orders() == old(self).orders().insert(
                                    o@.chat_id,
                                    with_size(
                                        o@,
                                        sizes[n - 1].size,
                                        sizes[n - 1].price,
                                        now.secs as int,
                                    ),
                                )
                            } else {
                                r == Err::<(), Error>(Error::OrderWrongState) && final(self).repository == old(self).repository
                            }
                        } else {
                            (match r {
                                Err(Error::SizeInvalid(p)) => p@ == session_paper(o@),
                                _ => false,
                            }) && final(self).repository == old(self).repository
                        }
                    },
                }
            }),
    {
        let sel = parse_selection(message.message.as_str());
        match sel {
            None => Err(Error::ParseFailed),
            Some(n) => {
                let paper = o.get_paper().to_owned();
                if n == 0 {
                    return Err(Error::SizeInvalid(paper));
                }
                let size_opt = self.prompt.try_get_size(paper.as_str(), n - 1);
                match size_opt {
                    None => Err(Error::SizeInvalid(paper)),
                    Some((size, price)) => {
                        match o.into_order_with_size(size, price, now) {
                            Ok(new_state) => {
                                self.repository.set_order(new_state);
                                Ok(())
                            },
                            Err(e) => Err(e),
                        }
                    },
                }
            },
        }
    }

    /// Handle one image event: create or extend the session for the chat
    /// and send the prompt the resulting phase calls for.
    pub fn handle_image_message(&mut self, message: ReceivedMessage, now: Timestamp) -> (r: Result<
        (),
        Error,
    >)
        ensures
            r is Ok,
            final(self).prompt == old(self).prompt,
            final(self).config == old(self).config,
            image_post(
                old(self).bot_view(),
                final(self).bot_view(),
                message.chat_id@,
                message.customer_name@,
                message.message@,
                old(self).catalog(),
                now.secs as int,
            ),
    {
        let chat_id = message.chat_id.clone();
        let opt = self.repository.get_order(chat_id.as_str());
        match opt {
            Some(order) => {
                let mut updated = order;
                let tag = updated.state_tag();
                let paper_copy = updated.get_paper().to_owned();
                updated.add_image(message.message, now);
                self.repository.set_order(updated);
                match tag {
                    StateTag::FilesReceiving => {},
                    StateTag::PaperRequested => {
                        let p = self.prompt.paper_prompt();
                        let _ = self.transport.send_message(chat_id, p);
                    },
                    StateTag::SizeRequested => {
                        let p = self.prompt.size_prompt(paper_copy.as_str());
                        let _ = self.transport.send_message(chat_id, p);
                    },
                    StateTag::SizeSelected => {
                        let p = self.prompt.ready_prompt();
                        let _ = self.transport.send_message(chat_id, p);
                    },
                }
                Ok(())
            },
            None => {
                let s = OrderState::from_img_msg(message, now);
                self.repository.set_order(s);
                let txt = String::from_str(
                    "Загрузите файлы для печати. Когда закончите с отправкой файлов, напишите: все",
                );
                let _ = self.transport.send_message(chat_id, txt);
                Ok(())
            },
        }
    }
}


impl<R: Repository, T: Transport> Handler<R, T> {
    /// Handle one text event: create a session for a new conversation, or
    /// move the existing one as the transition table says — cancellation
    /// deletes it, a valid selection advances it, anything else re-issues
    /// the prompt of the same phase.  The ready word on a complete session
    /// submits the order, deletes the session whatever the submission
    /// answers, and reports the outcome.
    pub fn handle_text_message(&mut self, message: ReceivedMessage, now: Timestamp) -> (r: Result<
        (),
        Error,
    >)
        ensures
            r is Ok,
            final(self).prompt == old(self).prompt,
            final(self).config == old(self).config,
            text_post(
                old(self).bot_view(),
                final(self).bot_view(),
                message.chat_id@,
                message.customer_name@,
                message.message@,
                old(self).catalog(),
                old(self).prompt.shop_address@,
                old(self).prompt.shop_phone@,
                now.secs as int,
            ),
    {
        let ghost pre = self.bot_view();
        let ghost m = message.message@;
        let ghost cat = self.catalog();
        let ghost gnow = now.secs as int;
        let chat_id = message.chat_id.clone();
        let opt = self.repository.get_order(chat_id.as_str());
        match opt {
            None => {
                let s = OrderState::from_txt_msg(message, now);
                self.repository.set_order(s);
                let txt = String::from_str(
                    "Загрузите файлы для печати. Когда закончите с отправкой файлов, напишите: все",
                );
                // A delivery failure never blocks or reverses the transition
                // that triggered the send, here and below.
                let _ = self.transport.send_message(chat_id, txt);
                Ok(())
            },
            Some(order) => {
                let ghost s = pre.orders[message.chat_id@];
                let ghost eff = text_step(s, m, cat, gnow);
                let low = lowercase(message.message.as_str());
                if contains_sub(low.as_str(), "отмен") {
                    self.repository.delete_order(chat_id.as_str())?;
                    let _ = self.transport.send_message(
                        chat_id,
                        String::from_str("Ваш заказ отменен"),
                    );
                    proof {
                        assert(self.bot_view().sent =~= pre.sent + replies_to(
                            message.chat_id@,
                            eff.replies,
                        ));
                    }
                    return Ok(());
                }
                match order.state_tag() {
                    StateTag::FilesReceiving => {
                        if (contains_sub(low.as_str(), "все") || contains_sub(low.as_str(), "всё"))
                            && order.have_files() {
                            let p = self.prompt.paper_prompt();
                            let _ = self.transport.send_message(chat_id, p);
                            let res = self.paper_requested(order, now);
                            proof {
                                assert(res is Ok);
                                assert(self.bot_view().sent =~= pre.sent + replies_to(
                                    message.chat_id@,
                                    eff.replies,
                                ));
                            }
                            res
                        } else {
                            proof {
                                assert(self.bot_view().sent =~= pre.sent + replies_to(
                                    message.chat_id@,
                                    eff.replies,
                                ));
                            }
                            Ok(())
                        }
                    },
                    StateTag::PaperRequested => {
                        let res = self.try_set_paper(order, message, now);
                        match res {
                            Ok(paper) => {
                                let sp = self.prompt.size_prompt(paper.as_str());
                                let _ = self.transport.send_message(chat_id, sp);
                            },
                            Err(_) => {
                                let pp = self.prompt.paper_prompt();
                                let _ = self.transport.send_message(chat_id, pp);
                            },
                        }
                        proof {
                            assert(self.bot_view().sent =~= pre.sent + replies_to(
                                message.chat_id@,
                                eff.replies,
                            ));
                        }
                        Ok(())
                    },
                    StateTag::SizeRequested => {
                        let paper_copy = order.get_paper().to_owned();
                        let res = self.try_set_size(order, message, now);
                        match res {
                            Ok(_) => {
                                let rp = self.prompt.ready_prompt();
                                let _ = self.transport.send_message(chat_id, rp);
                            },
                            Err(_) => {
                                let sp = self.prompt.size_prompt(paper_copy.as_str());
                                let _ = self.transport.send_message(chat_id, sp);
                            },
                        }
                        proof {
                            assert(self.bot_view().sent =~= pre.sent + replies_to(
                                message.chat_id@,
                                eff.replies,
                            ));
                        }
                        Ok(())
                    },
                    StateTag::SizeSelected => {
                        if contains_sub(low.as_str(), "готов") && order.have_files() {
                            let _ = self.transport.send_message(
                                chat_id.clone(),
                                String::from_str("Пожалуйста ожидайте, Ваш заказ обрабатывается"),
                            );
                            let res = self.transport.send_order(order);
                            self.repository.delete_order(chat_id.as_str())?;
                            match res {
                                Ok(order_id) => {
                                    let ghost id = order_id@;
                                    let fp = self.prompt.final_prompt(order_id);
                                    proof {
                                        assert(fp@ == final_prompt_spec(
                                            id,
                                            old(self).prompt.shop_address@,
                                            old(self).prompt.shop_phone@,
                                        ));
                                    }
                                    let _ = self.transport.send_message(chat_id, fp);
                                },
                                Err(_) => {
                                    let _ = self.transport.send_message(
                                        chat_id,
                                        String::from_str(
                                            "Не удалось отправить Ваш заказ, попробуйте еще раз",
                                        ),
                                    );
                                },
                            }
                            proof {
                                let post = self.bot_view();
                                assert(post.sent.subrange(0, post.sent.len() - 1) =~= pre.sent
                                    + replies_to(message.chat_id@, eff.replies));
                            }
                            Ok(())
                        } else {
                            let rp = self.prompt.ready_prompt();
                            let _ = self.transport.send_message(chat_id, rp);
                            proof {
                                assert(self.bot_view().sent =~= pre.sent + replies_to(
                                    message.chat_id@,
                                    eff.replies,
                                ));
                            }
                            Ok(())
                        }
                    },
                }
            },
        }
    }
}


// ---------------------------------------------------------------------------
// The sweep: timeout, retry and eviction policy
// ---------------------------------------------------------------------------

/// What one sweep pass does with one session.
#[derive(Debug, Clone, Copy, PartialEq, Eq, Structural)]
pub enum SweepAction {
    Keep,
    Reprompt,
    Evict,
}

/// The sweep policy for one session: a session that never received a file
/// is evicted once idle past `no_files_timeout`; one with files is
/// re-prompted when idle past `repeat_timeout` while under `repeat_count`
/// re-prompts, and evicted once the re-prompts are used up.
pub open spec fn sweep_action_spec(
    s: Session,
    now: int,
    no_files_timeout: int,
    repeat_count: int,
    repeat_timeout: int,
) -> SweepAction {
    if s.files.len() == 0 {
        if crate::timestamp::elapsed_secs(s.last_secs, now) > no_files_timeout {
            SweepAction::Evict
        } else {
            SweepAction::Keep
        }
    } else if s.repeats < repeat_count && crate::timestamp::elapsed_secs(s.last_secs, now)
        > repeat_timeout {
        SweepAction::Reprompt
    } else if s.repeats < repeat_count {
        SweepAction::Keep
    } else {
        SweepAction::Evict
    }
}

/// Decide the sweep policy for one session.
pub fn sweep_action(
    o: &OrderState,
    now: Timestamp,
    no_files_timeout: u64,
    repeat_count: i32,
    repeat_timeout: u64,
) -> (a: SweepAction)
    ensures
        a == sweep_action_spec(
            o@,
            now.secs as int,
            no_files_timeout as int,
            repeat_count as int,
            repeat_timeout as int,
        ),
{
    let elapsed = o.last_timestamp().elapsed_at(now.secs);
    if !o.have_files() {
        if elapsed > no_files_timeout {
            SweepAction::Evict
        } else {
            SweepAction::Keep
        }
    } else if o.repeats() < repeat_count && elapsed > repeat_timeout {
        SweepAction::Reprompt
    } else if o.repeats() < repeat_count {
        SweepAction::Keep
    } else {
        SweepAction::Evict
    }
}

/// The store after one sweep pass: evicted sessions gone, re-prompted ones
/// bumped, the rest untouched.
pub open spec fn sweep_map(
    m: Map<Seq<char>, Session>,
    now: int,
    nf: int,
    rc: int,
    rt: int,
) -> Map<Seq<char>, Session> {
    Map::new(
        |k: Seq<char>|
            m.contains_key(k) && sweep_action_spec(m[k], now, nf, rc, rt) != SweepAction::Evict,
        |k: Seq<char>|
            if sweep_action_spec(m[k], now, nf, rc, rt) == SweepAction::Reprompt {
                bumped(m[k], now)
            } else {
                m[k]
            },
    )
}

/// The re-prompts one sweep pass sends, in the order the sessions were
/// listed: the prompt of its current phase to every re-prompted session.
pub open spec fn reprompt_sends(
    snap: Seq<Session>,
    cat: Seq<PaperTypeV>,
    now: int,
    nf: int,
    rc: int,
    rt: int,
) -> Seq<(Seq<char>, Seq<char>)>
    decreases snap.len(),
{
    if snap.len() == 0 {
        Seq::empty()
    } else {
        reprompt_sends(snap.drop_last(), cat, now, nf, rc, rt) + (
        if sweep_action_spec(snap.last(), now, nf, rc, rt) == SweepAction::Reprompt {
            seq![(snap.last().chat_id, phase_prompt(snap.last(), cat))]
        } else {
            Seq::empty()
        })
    }
}

/// The chat ids one sweep pass evicts, in the order the sessions were
/// listed.
pub open spec fn evict_keys(snap: Seq<Session>, now: int, nf: int, rc: int, rt: int) -> Seq<
    Seq<char>,
>
    decreases snap.len(),
{
    if snap.len() == 0 {
        Seq::empty()
    } else {
        evict_keys(snap.drop_last(), now, nf, rc, rt) + (
        if sweep_action_spec(snap.last(), now, nf, rc, rt) == SweepAction::Evict {
            seq![snap.last().chat_id]
        } else {
            Seq::empty()
        })
    }
}

/// One inactivity cancellation notice per evicted chat, in order.
pub open spec fn notices_of(ks: Seq<Seq<char>>) -> Seq<(Seq<char>, Seq<char>)> {
    Seq::new(ks.len(), |i: int| (ks[i], timeout_cancel_text()))
}

/// Some session among the first `i` of the snapshot has this chat id.
spec fn processed(snap: Seq<Session>, i: int, k: Seq<char>) -> bool {
    exists|j: int| 0 <= j < i && (#[trigger] snap[j].chat_id) == k
}

/// The store while the sweep's re-prompt phase has handled the first `i`
/// sessions of the snapshot.
spec fn phase1_map(
    m: Map<Seq<char>, Session>,
    snap: Seq<Session>,
    i: int,
    now: int,
    nf: int,
    rc: int,
    rt: int,
) -> Map<Seq<char>, Session> {
    Map::new(
        |k: Seq<char>| m.contains_key(k),
        |k: Seq<char>|
            if processed(snap, i, k) && sweep_action_spec(m[k], now, nf, rc, rt)
                == SweepAction::Reprompt {
                bumped(m[k], now)
            } else {
                m[k]
            },
    )
}

/// The map after removing the given keys in order.
spec fn remove_keys(m: Map<Seq<char>, Session>, ks: Seq<Seq<char>>) -> Map<
    Seq<char>,
    Session,
>
    decreases ks.len(),
{
    if ks.len() == 0 {
        m
    } else {
        remove_keys(m, ks.drop_last()).remove(ks.last())
    }
}

proof fn lemma_evict_keys_member(
    snap: Seq<Session>,
    now: int,
    nf: int,
    rc: int,
    rt: int,
    k: Seq<char>,
)
    ensures
        evict_keys(snap, now, nf, rc, rt).contains(k) <==> exists|i: int|
            0 <= i < snap.len() && (#[trigger] snap[i].chat_id) == k && sweep_action_spec(
                snap[i],
                now,
                nf,
                rc,
                rt,
            ) == SweepAction::Evict,
    decreases snap.len(),
{
    if snap.len() > 0 {
        let t = snap.drop_last();
        lemma_evict_keys_member(t, now, nf, rc, rt, k);
        let ek = evict_keys(snap, now, nf, rc, rt);
        let ekt = evict_keys(t, now, nf, rc, rt);
        if ek.contains(k) {
            let l = choose|l: int| 0 <= l < ek.len() && ek[l] == k;
            if l < ekt.len() {
                assert(ekt[l] == k);
                assert(ekt.contains(k));
                let i = choose|i: int|
                    0 <= i < t.len() && (#[trigger] t[i].chat_id) == k && sweep_action_spec(
                        t[i],
                        now,
                        nf,
                        rc,
                        rt,
                    ) == SweepAction::Evict;
                assert(snap[i].chat_id == k);
            } else {
                assert(snap[snap.len() - 1].chat_id == k);
            }
        }
        if exists|i: int|
            0 <= i < snap.len() && (#[trigger] snap[i].chat_id) == k && sweep_action_spec(
                snap[i],
                now,
                nf,
                rc,
                rt,
            ) == SweepAction::Evict {
            let i = choose|i: int|
                0 <= i < snap.len() && (#[trigger] snap[i].chat_id) == k && sweep_action_spec(
                    snap[i],
                    now,
                    nf,
                    rc,
                    rt,
                ) == SweepAction::Evict;
            if i < snap.len() - 1 {
                assert(t[i].chat_id == k && sweep_action_spec(t[i], now, nf, rc, rt)
                    == SweepAction::Evict);
                assert(ekt.contains(k));
                let l = choose|l: int| 0 <= l < ekt.len() && ekt[l] == k;
                assert(ek[l] == k);
                assert(ek.contains(k));
            } else {
                assert(ek[ek.len() - 1] == k);
                assert(ek.contains(k));
            }
        }
    }
}

proof fn lemma_evict_keys_distinct(snap: Seq<Session>, now: int, nf: int, rc: int, rt: int)
    requires
        crate::repository::distinct_keys(snap),
    ensures
        forall|l1: int, l2: int|
            0 <= l1 < l2 < evict_keys(snap, now, nf, rc, rt).len() ==> evict_keys(
                snap,
                now,
                nf,
                rc,
                rt,
            )[l1] != evict_keys(snap, now, nf, rc, rt)[l2],
    decreases snap.len(),
{
    if snap.len() > 0 {
        let t = snap.drop_last();
        assert(crate::repository::distinct_keys(t));
        lemma_evict_keys_distinct(t, now, nf, rc, rt);
        let ek = evict_keys(snap, now, nf, rc, rt);
        let ekt = evict_keys(t, now, nf, rc, rt);
        assert forall|l1: int, l2: int| 0 <= l1 < l2 < ek.len() implies ek[l1] != ek[l2] by {
            if l2 < ekt.len() {
                assert(ekt[l1] == ek[l1] && ekt[l2] == ek[l2]);
            } else {
                // `l2` names the evicted last session; its chat id cannot
                // occur among the earlier evicted keys.
                assert(ek[l2] == snap.last().chat_id);
                assert(ekt[l1] == ek[l1]);
                assert(ekt.contains(ekt[l1]));
                lemma_evict_keys_member(t, now, nf, rc, rt, ekt[l1]);
                let i = choose|i: int|
                    0 <= i < t.len() && (#[trigger] t[i].chat_id) == ekt[l1] && sweep_action_spec(
                        t[i],
                        now,
                        nf,
                        rc,
                        rt,
                    ) == SweepAction::Evict;
                assert(snap[i].chat_id == ekt[l1]);
                assert(snap[i].chat_id != snap[snap.len() - 1].chat_id);
            }
        }
    }
}

proof fn lemma_remove_keys(m: Map<Seq<char>, Session>, ks: Seq<Seq<char>>, k: Seq<char>)
    ensures
        remove_keys(m, ks).contains_key(k) <==> (m.contains_key(k) && !ks.contains(k)),
        remove_keys(m, ks).contains_key(k) ==> remove_keys(m, ks)[k] == m[k],
    decreases ks.len(),
{
    if ks.len() > 0 {
        let t = ks.drop_last();
        lemma_remove_keys(m, t, k);
        if ks.contains(k) {
            let l = choose|l: int| 0 <= l < ks.len() && ks[l] == k;
            if l < ks.len() - 1 {
                assert(t[l] == k);
                assert(t.contains(k));
            }
        }
        if t.contains(k) {
            let l = choose|l: int| 0 <= l < t.len() && t[l] == k;
            assert(ks[l] == k);
            assert(ks.contains(k));
        }
        if ks.last() == k {
            assert(ks[ks.len() - 1] == k);
            assert(ks.contains(k));
        }
    }
}


impl<R: Repository, T: Transport> Handler<R, T> {
    /// One sweep pass over every stored session: evict the stalled ones,
    /// re-prompt the idle ones that still have re-prompts left, and leave
    /// the rest alone.  Each re-prompted session gets exactly one prompt,
    /// matching its current phase; each evicted one gets exactly one
    /// cancellation notice, after its removal from the store.
    #[verifier::rlimit(60)]
    pub fn handle_awaits(&mut self, now: Timestamp) -> (r: Result<(), Error>)
        ensures
            r is Ok,
            final(self).prompt == old(self).prompt,
            final(self).config == old(self).config,
            final(self).transport.submitted() == old(self).transport.submitted(),
            final(self).orders() == sweep_map(
                old(self).orders(),
                now.secs as int,
                old(self).config.NO_FILES_TIMEOUT as int,
                old(self).config.REPEAT_COUNT as int,
                old(self).config.REPEAT_TIMEOUT as int,
            ),
            exists|snap: Seq<Session>|
                #[trigger] crate::repository::snapshot_of(snap, old(self).orders()) && final(self).transport.sent() == old(self).transport.sent() + reprompt_sends(
                    snap,
                    old(self).catalog(),
                    now.secs as int,
                    old(self).config.NO_FILES_TIMEOUT as int,
                    old(self).config.REPEAT_COUNT as int,
                    old(self).config.REPEAT_TIMEOUT as int,
                ) + notices_of(
                    evict_keys(
                        snap,
                        now.secs as int,
                        old(self).config.NO_FILES_TIMEOUT as int,
                        old(self).config.REPEAT_COUNT as int,
                        old(self).config.REPEAT_TIMEOUT as int,
                    ),
                ),
    {
        let ghost m0 = self.repository.orders();
        let ghost cat = self.catalog();
        let ghost s0 = self.transport.sent();
        let nf = self.config.NO_FILES_TIMEOUT;
        let rc = self.config.REPEAT_COUNT;
        let rt = self.config.REPEAT_TIMEOUT;
        let ghost gnf = nf as int;
        let ghost grc = rc as int;
        let ghost grt = rt as int;
        let ghost gnow = now.secs as int;
        let orders_vec = self.repository.get_orders();
        let ghost snap = orders_vec.deep_view();
        let mut to_remove: Vec<String> = Vec::new();
        let n = orders_vec.len();
        proof {
            assert(snap.subrange(0, 0) =~= Seq::<Session>::empty());
            assert(s0 + reprompt_sends(snap.subrange(0, 0), cat, gnow, gnf, grc, grt) =~= s0);
            assert(to_remove.deep_view() =~= evict_keys(
                snap.subrange(0, 0),
                gnow,
                gnf,
                grc,
                grt,
            ));
            assert(self.repository.orders() =~= phase1_map(m0, snap, 0, gnow, gnf, grc, grt));
        }
        let mut i: usize = 0;
        while i < n
            invariant
                0 <= i <= n,
                n == orders_vec@.len(),
                orders_vec.deep_view() == snap,
                crate::repository::snapshot_of(snap, m0),
                gnf == nf as int,
                grc == rc as int,
                grt == rt as int,
                gnow == now.secs as int,
                cat == self.catalog(),
                self.prompt == old(self).prompt,
                self.config == old(self).config,
                self.transport.submitted() == old(self).transport.submitted(),
                self.repository.orders() == phase1_map(m0, snap, i as int, gnow, gnf, grc, grt),
                self.transport.sent() == s0 + reprompt_sends(
                    snap.subrange(0, i as int),
                    cat,
                    gnow,
                    gnf,
                    grc,
                    grt,
                ),
                to_remove.deep_view() == evict_keys(
                    snap.subrange(0, i as int),
                    gnow,
                    gnf,
                    grc,
                    grt,
                ),
            decreases n - i,
        {
            proof {
                assert(snap.subrange(0, i as int + 1).drop_last() =~= snap.subrange(0, i as int));
                assert(snap.subrange(0, i as int + 1).last() == snap[i as int]);
                assert(orders_vec.deep_view()[i as int] == orders_vec@[i as int]@);
            }
            let ghost ki = snap[i as int].chat_id;
            proof {
                // The snapshot entry is the stored session for its key.
                assert(m0.contains_key(snap[i as int].chat_id) && m0[snap[i as int].chat_id]
                    == snap[i as int]);
                assert forall|k2: Seq<char>|
                    processed(snap, i as int + 1, k2) <==> (processed(snap, i as int, k2) || k2
                        == ki) by {
                    if processed(snap, i as int + 1, k2) {
                        let j = choose|j: int|
                            0 <= j < i as int + 1 && (#[trigger] snap[j].chat_id) == k2;
                        if j < i as int {
                            assert(processed(snap, i as int, k2));
                        } else {
                            assert(k2 == ki);
                        }
                    }
                    if processed(snap, i as int, k2) {
                        let j = choose|j: int| 0 <= j < i as int && (#[trigger] snap[j].chat_id)
                            == k2;
                        assert(snap[j].chat_id == k2);
                        assert(processed(snap, i as int + 1, k2));
                    }
                    if k2 == ki {
                        assert(snap[i as int].chat_id == k2);
                        assert(processed(snap, i as int + 1, k2));
                    }
                }
            }
            let o = &orders_vec[i];
            let a = sweep_action(o, now, nf, rc, rt);
            match a {
                SweepAction::Reprompt => {
                    let mut c = o.duplicate();
                    let tag = c.state_tag();
                    let paper_copy = c.get_paper().to_owned();
                    let chat = o.get_chat_id();
                    c.requested(now);
                    self.repository.set_order(c);
                    match tag {
                        StateTag::FilesReceiving => {
                            let t = String::from_str(
                                "Загрузите файлы для печати. Когда закончите с отправкой файлов, напишите: все",
                            );
                            let _ = self.transport.send_message(chat, t);
                        },
                        StateTag::PaperRequested => {
                            let p = self.prompt.paper_prompt();
                            let _ = self.transport.send_message(chat, p);
                        },
                        StateTag::SizeRequested => {
                            let p = self.prompt.size_prompt(paper_copy.as_str());
                            let _ = self.transport.send_message(chat, p);
                        },
                        StateTag::SizeSelected => {
                            let p = self.prompt.ready_prompt();
                            let _ = self.transport.send_message(chat, p);
                        },
                    }
                    proof {
                        assert(self.transport.sent() =~= s0 + reprompt_sends(
                            snap.subrange(0, i as int + 1),
                            cat,
                            gnow,
                            gnf,
                            grc,
                            grt,
                        ));
                        assert(evict_keys(snap.subrange(0, i as int + 1), gnow, gnf, grc, grt)
                            =~= evict_keys(snap.subrange(0, i as int), gnow, gnf, grc, grt));
                        assert(self.repository.orders() =~= phase1_map(
                            m0,
                            snap,
                            i as int + 1,
                            gnow,
                            gnf,
                            grc,
                            grt,
                        ));
                    }
                },
                SweepAction::Evict => {
                    to_remove.push(o.get_chat_id());
                    proof {
                        assert(to_remove.deep_view() =~= evict_keys(
                            snap.subrange(0, i as int + 1),
                            gnow,
                            gnf,
                            grc,
                            grt,
                        ));
                        assert(self.transport.sent() =~= s0 + reprompt_sends(
                            snap.subrange(0, i as int + 1),
                            cat,
                            gnow,
                            gnf,
                            grc,
                            grt,
                        ));
                        assert(self.repository.orders() =~= phase1_map(
                            m0,
                            snap,
                            i as int + 1,
                            gnow,
                            gnf,
                            grc,
                            grt,
                        ));
                    }
                },
                SweepAction::Keep => {
                    proof {
                        assert(to_remove.deep_view() =~= evict_keys(
                            snap.subrange(0, i as int + 1),
                            gnow,
                            gnf,
                            grc,
                            grt,
                        ));
                        assert(self.transport.sent() =~= s0 + reprompt_sends(
                            snap.subrange(0, i as int + 1),
                            cat,
                            gnow,
                            gnf,
                            grc,
                            grt,
                        ));
                        assert(self.repository.orders() =~= phase1_map(
                            m0,
                            snap,
                            i as int + 1,
                            gnow,
                            gnf,
                            grc,
                            grt,
                        ));
                    }
                },
            }
            i += 1;
        }
        proof {
            assert(snap.subrange(0, n as int) =~= snap);
        }
        let ghost p1 = phase1_map(m0, snap, n as int, gnow, gnf, grc, grt);
        let ghost eks = evict_keys(snap, gnow, gnf, grc, grt);
        proof {
            lemma_evict_keys_distinct(snap, gnow, gnf, grc, grt);
            assert(eks.subrange(0, 0) =~= Seq::<Seq<char>>::empty());
            assert(remove_keys(p1, eks.subrange(0, 0)) == p1);
            assert(notices_of(eks.subrange(0, 0)) =~= Seq::<(Seq<char>, Seq<char>)>::empty());
            assert(self.transport.sent() + notices_of(eks.subrange(0, 0)) =~= self.transport.sent());
        }
        let k = to_remove.len();
        let mut j: usize = 0;
        while j < k
            invariant
                0 <= j <= k,
                k == to_remove@.len(),
                to_remove.deep_view() == eks,
                eks.len() == k,
                crate::repository::snapshot_of(snap, m0),
                p1 == phase1_map(m0, snap, snap.len() as int, gnow, gnf, grc, grt),
                eks == evict_keys(snap, gnow, gnf, grc, grt),
                forall|l1: int, l2: int| 0 <= l1 < l2 < eks.len() ==> eks[l1] != eks[l2],
                gnow == now.secs as int,
                cat == self.catalog(),
                self.prompt == old(self).prompt,
                self.config == old(self).config,
                self.transport.submitted() == old(self).transport.submitted(),
                self.repository.orders() == remove_keys(p1, eks.subrange(0, j as int)),
                self.transport.sent() == s0 + reprompt_sends(snap, cat, gnow, gnf, grc, grt)
                    + notices_of(eks.subrange(0, j as int)),
            decreases k - j,
        {
            proof {
                assert(eks.subrange(0, j as int + 1).drop_last() =~= eks.subrange(0, j as int));
                assert(eks.subrange(0, j as int + 1).last() == eks[j as int]);
                assert(to_remove.deep_view()[j as int] == eks[j as int]);
                assert(eks.contains(eks[j as int]));
                lemma_evict_keys_member(snap, gnow, gnf, grc, grt, eks[j as int]);
                let ii = choose|ii: int|
                    0 <= ii < snap.len() && (#[trigger] snap[ii].chat_id) == eks[j as int]
                        && sweep_action_spec(snap[ii], gnow, gnf, grc, grt) == SweepAction::Evict;
                assert(m0.contains_key(snap[ii].chat_id));
                assert(p1.contains_key(eks[j as int]));
                lemma_remove_keys(p1, eks.subrange(0, j as int), eks[j as int]);
                if eks.subrange(0, j as int).contains(eks[j as int]) {
                    let l = choose|l: int|
                        0 <= l < j as int && eks.subrange(0, j as int)[l] == eks[j as int];
                    assert(eks[l] == eks[j as int]);
                    assert(false);
                }
                assert(self.repository.orders().contains_key(eks[j as int]));
            }
            let ks: &String = &to_remove[j];
            self.repository.delete_order(ks.as_str())?;
            let notice = String::from_str("Заказ отменен, из-за длительного ожидания");
            let _ = self.transport.send_message(ks.clone(), notice);
            proof {
                assert(self.repository.orders() =~= remove_keys(
                    p1,
                    eks.subrange(0, j as int + 1),
                ));
                assert(self.transport.sent() =~= s0 + reprompt_sends(snap, cat, gnow, gnf, grc, grt)
                    + notices_of(eks.subrange(0, j as int + 1)));
            }
            j += 1;
        }
        proof {
            assert(eks.subrange(0, k as int) =~= eks);
            let target = sweep_map(m0, gnow, gnf, grc, grt);
            let got = remove_keys(p1, eks);
            assert forall|k2: Seq<char>| got.contains_key(k2) == target.contains_key(k2) by {
                lemma_remove_keys(p1, eks, k2);
                lemma_evict_keys_member(snap, gnow, gnf, grc, grt, k2);
                if m0.contains_key(k2) {
                    let ii = choose|ii: int|
                        0 <= ii < snap.len() && (#[trigger] snap[ii].chat_id) == k2;
                    assert(m0[k2] == snap[ii]);
                    if sweep_action_spec(m0[k2], gnow, gnf, grc, grt) == SweepAction::Evict {
                        assert(eks.contains(k2));
                    } else {
                        if eks.contains(k2) {
                            let i2 = choose|i2: int|
                                0 <= i2 < snap.len() && (#[trigger] snap[i2].chat_id) == k2
                                    && sweep_action_spec(snap[i2], gnow, gnf, grc, grt)
                                    == SweepAction::Evict;
                            assert(m0[k2] == snap[i2]);
                        }
                    }
                }
            }
            assert forall|k2: Seq<char>| #[trigger] got.contains_key(k2) implies got[k2]
                == target[k2] by {
                lemma_remove_keys(p1, eks, k2);
                let ii = choose|ii: int| 0 <= ii < snap.len() && (#[trigger] snap[ii].chat_id)
                    == k2;
                assert(processed(snap, snap.len() as int, k2));
            }
            assert(got =~= target);
            // The snapshot taken at entry witnesses the sent-message shape.
            assert(crate::repository::snapshot_of(snap, old(self).orders()));
            assert(notices_of(eks.subrange(0, k as int)) == notices_of(eks));
            assert(self.transport.sent() == old(self).transport.sent() + reprompt_sends(
                snap,
                old(self).catalog(),
                now.secs as int,
                old(self).config.NO_FILES_TIMEOUT as int,
                old(self).config.REPEAT_COUNT as int,
                old(self).config.REPEAT_TIMEOUT as int,
            ) + notices_of(
                evict_keys(
                    snap,
                    now.secs as int,
                    old(self).config.NO_FILES_TIMEOUT as int,
                    old(self).config.REPEAT_COUNT as int,
                    old(self).config.REPEAT_TIMEOUT as int,
                ),
            ));
        }
        Ok(())
    }

    /// Dispatch one inbound event: texts and images drive the state
    /// machine; instance status changes and empty events do nothing.
    pub fn handle(&mut self, message: Message, now: Timestamp) -> (r: Result<(), Error>)
        ensures
            r is Ok,
            final(self).prompt == old(self).prompt,
            final(self).config == old(self).config,
            match message {
                Message::Text(mm) => text_post(
                    old(self).bot_view(),
                    final(self).bot_view(),
                    mm.chat_id@,
                    mm.customer_name@,
                    mm.message@,
                    old(self).catalog(),
                    old(self).prompt.shop_address@,
                    old(self).prompt.shop_phone@,
                    now.secs as int,
                ),
                Message::Image(mm) => image_post(
                    old(self).bot_view(),
                    final(self).bot_view(),
                    mm.chat_id@,
                    mm.customer_name@,
                    mm.message@,
                    old(self).catalog(),
                    now.secs as int,
                ),
                Message::StateInstance(_) => final(self).bot_view() == old(self).bot_view(),
                Message::Empty => final(self).bot_view() == old(self).bot_view(),
            },
    {
        match message {
            Message::Text(mm) => self.handle_text_message(mm, now),
            Message::Image(mm) => self.handle_image_message(mm, now),
            Message::StateInstance(_) => Ok(()),
            Message::Empty => Ok(()),
        }
    }
}

/// What the poller drives: event dispatch and the periodic sweep.
pub trait MessageHandler {
    fn handle(&mut self, message: Message, now: Timestamp) -> Result<(), Error>;

    fn handle_awaits(&mut self, now: Timestamp) -> Result<(), Error>;
}

impl<R: Repository, T: Transport> MessageHandler for Handler<R, T> {
    fn handle(&mut self, message: Message, now: Timestamp) -> Result<(), Error> {
        Handler::handle(self, message, now)
    }

    fn handle_awaits(&mut self, now: Timestamp) -> Result<(), Error> {
        Handler::handle_awaits(self, now)
    }
}


// ---------------------------------------------------------------------------
// Laws of the flow
// ---------------------------------------------------------------------------

/// The session a text event leaves behind, and the unchanged session when
/// the event deletes it; a convenience for chaining steps.
pub open spec fn stepped(s: Session, m: Seq<char>, cat: Seq<PaperTypeV>, now: int) -> Session {
    match text_step(s, m, cat, now).session {
        Some(s2) => s2,
        None => s,
    }
}

/// No sequence of text inputs moves a session backward: each step either
/// deletes the session or keeps or advances its phase, on the same chat.
pub proof fn lemma_no_backward_transition(s: Session, m: Seq<char>, cat: Seq<PaperTypeV>, now: int)
    ensures
        match text_step(s, m, cat, now).session {
            Some(s2) => tag_idx(s2.tag) >= tag_idx(s.tag) && s2.chat_id == s.chat_id,
            None => true,
        },
{
}

/// An image input never changes the phase or the repeat counter: it only
/// appends the file and refreshes the activity time.
pub proof fn lemma_image_keeps_phase(s: Session, url: Seq<char>, now: int)
    ensures
        with_file(s, url, now).tag == s.tag,
        with_file(s, url, now).repeats == s.repeats,
        with_file(s, url, now).files == s.files.push(url),
{
}

/// A numeric selection within the list advances the phase by exactly one;
/// any other non-cancelling text leaves the session exactly as it was.
pub proof fn lemma_selection_advances_one(s: Session, m: Seq<char>, cat: Seq<PaperTypeV>, now: int)
    requires
        !is_cancel_text(m),
        s.tag == StateTag::PaperRequested || s.tag == StateTag::SizeRequested,
    ensures
        ({
            let list_len = if s.tag == StateTag::PaperRequested {
                names_of(cat).len() as int
            } else {
                sizes_of(cat, s.paper).len() as int
            };
            let eff = text_step(s, m, cat, now);
            let valid = match parsed_selection(m) {
                Some(n) => 1 <= n && n <= list_len,
                None => false,
            };
            &&& (valid ==> match eff.session {
                Some(s2) => tag_idx(s2.tag) == tag_idx(s.tag) + 1,
                None => false,
            })
            &&& (!valid ==> match eff.session {
                Some(s2) => s2 == s,
                None => false,
            })
        }),
{
}

/// A session without files is never re-prompted and is evicted exactly
/// when it has sat idle past the no-files timeout — never through the
/// repeat-count path.
pub proof fn lemma_no_files_eviction(s: Session, now: int, nf: int, rc: int, rt: int)
    requires
        s.files.len() == 0,
    ensures
        sweep_action_spec(s, now, nf, rc, rt) != SweepAction::Reprompt,
        sweep_action_spec(s, now, nf, rc, rt) == SweepAction::Evict <==> crate::timestamp::elapsed_secs(
            s.last_secs,
            now,
        ) > nf,
{
}

/// The repeat counter resets to zero on every forward transition and is
/// untouched by any text that leaves the phase alone — invalid input never
/// increments it.
pub proof fn lemma_repeats_reset_on_advance(s: Session, m: Seq<char>, cat: Seq<PaperTypeV>, now: int)
    ensures
        match text_step(s, m, cat, now).session {
            Some(s2) => (s2.tag != s.tag ==> s2.repeats == 0) && (s2.tag == s.tag ==> s2 == s),
            None => true,
        },
{
}

/// Only a sweep-driven re-prompt increments the repeat counter, by exactly
/// one, leaving the phase alone.
pub proof fn lemma_sweep_bumps_repeats(s: Session, now: int)
    ensures
        bumped(s, now).repeats == s.repeats + 1,
        bumped(s, now).tag == s.tag,
        bumped(s, now).files == s.files,
{
}

/// A cancelling text in any phase deletes the session, attempts no
/// submission, and sends the cancellation notice and nothing else.
pub proof fn lemma_cancel_wins(s: Session, m: Seq<char>, cat: Seq<PaperTypeV>, now: int)
    requires
        is_cancel_text(m),
    ensures
        text_step(s, m, cat, now) == (TextEffect {
            session: None,
            submits: false,
            replies: seq![cancel_text()],
        }),
{
}

/// The round trip: a session born from an image, told that all files were
/// sent, given selection `1` for the paper and `1` for the size, and told
/// it is ready, deterministically reaches submission — one attempt, with
/// the first paper, its first size and price, and exactly the uploaded
/// file — whenever the catalog has at least one paper with at least one
/// size.
pub proof fn lemma_round_trip_submits(
    chat: Seq<char>,
    customer: Seq<char>,
    url: Seq<char>,
    m_done: Seq<char>,
    m_one: Seq<char>,
    m_ready: Seq<char>,
    cat: Seq<PaperTypeV>,
    t1: int,
    t2: int,
    t3: int,
    t4: int,
    t5: int,
)
    requires
        cat.len() >= 1,
        cat[0].sizes.len() >= 1,
        !is_cancel_text(m_done),
        is_done_text(m_done),
        !is_cancel_text(m_one),
        parsed_selection(m_one) == Some(1int),
        !is_cancel_text(m_ready),
        is_ready_text(m_ready),
    ensures
        ({
            let s0 = fresh_image_session(chat, customer, url, t1);
            let s1 = stepped(s0, m_done, cat, t2);
            let s2 = stepped(s1, m_one, cat, t3);
            let s3 = stepped(s2, m_one, cat, t4);
            let e4 = text_step(s3, m_ready, cat, t5);
            &&& text_step(s0, m_done, cat, t2).session == Some(s1) && !text_step(
                s0,
                m_done,
                cat,
                t2,
            ).submits
            &&& text_step(s1, m_one, cat, t3).session == Some(s2) && !text_step(
                s1,
                m_one,
                cat,
                t3,
            ).submits
            &&& text_step(s2, m_one, cat, t4).session == Some(s3) && !text_step(
                s2,
                m_one,
                cat,
                t4,
            ).submits
            &&& e4.submits && e4.session is None
            &&& order_message_of(s3) == (OrderMessageV {
                phone: crate::text::phone_of(chat),
                name: customer,
                paper_type: cat[0].name,
                paper_size: cat[0].sizes[0].size,
                price: cat[0].sizes[0].price,
                files: seq![url],
            })
        }),
{
    let s0 = fresh_image_session(chat, customer, url, t1);
    assert(s0.files.len() == 1);
    let s1 = stepped(s0, m_done, cat, t2);
    assert(s1 == to_paper_requested(s0, t2));
    let names = names_of(cat);
    assert(names.len() >= 1);
    assert(names[0] == cat[0].name);
    let s2 = stepped(s1, m_one, cat, t3);
    assert(s2 == with_paper(s1, cat[0].name, t3));
    let sizes = sizes_of(cat, cat[0].name);
    assert(sizes == cat[0].sizes);
    let s3 = stepped(s2, m_one, cat, t4);
    assert(s3 == with_size(s2, sizes[0].size, sizes[0].price, t4));
    assert(s3.files.len() == 1);
    assert(order_message_of(s3).files =~= seq![url]);
}

} // verus!
