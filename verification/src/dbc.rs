//! The parsed signal database: messages, the signals packed into them, and the
//! comments that were attached to messages.
//!
//! The text of a database is parsed by the `can_dbc` crate. What its parser
//! hands out is read field by field into the types of this module, and
//! everything else in the crate works on those.

use vstd::prelude::*;

verus! {

/// The numeric identifier of a message. Extended identifiers live in a larger
/// bit space than standard ones, so the two are kept apart.
#[derive(Debug, Clone, Copy, PartialEq, Eq, Structural)]
pub enum MessageId {
    Standard(u16),
    Extended(u32),
}

impl MessageId {
    /// The identifier as one unsigned 32-bit number, whichever its kind.
    pub open spec fn number(self) -> u32 {
        match self {
            MessageId::Standard(id) => id as u32,
            MessageId::Extended(id) => id,
        }
    }

    /// The identifier as one unsigned 32-bit number, whichever its kind.
    pub fn normalized(&self) -> (r: u32)
        ensures
            r == self.number(),
    {
        match self {
            MessageId::Standard(id) => *id as u32,
            MessageId::Extended(id) => *id,
        }
    }
}

/// The part a signal plays in multiplexing. A multiplexed signal carries the
/// value of the multiplexor for which it is present in the frame.
#[derive(Debug, Clone, Copy, PartialEq, Eq, Structural)]
pub enum MultiplexIndicator {
    Multiplexor,
    MultiplexedSignal(u64),
    MultiplexorAndMultiplexedSignal(u64),
    Plain,
}

#[derive(Debug, Clone, Copy, PartialEq, Eq, Structural)]
pub enum ByteOrder {
    LittleEndian,
    BigEndian,
}

#[derive(Debug, Clone, Copy, PartialEq, Eq, Structural)]
pub enum ValueType {
    Signed,
    Unsigned,
}

/// One signal of a message. The scaling and the value range are kept as the
/// decimal text in which they are written out.
#[derive(Debug)]
pub struct Signal {
    pub name: String,
    pub multiplexer_indicator: MultiplexIndicator,
    pub start_bit: u64,
    pub signal_size: u64,
    pub byte_order: ByteOrder,
    pub value_type: ValueType,
    pub factor: String,
    pub offset: String,
    pub min: String,
    pub max: String,
    pub unit: String,
}

/// What a [`Signal`] holds.
pub struct SignalView {
    pub name: Seq<char>,
    pub multiplexer_indicator: MultiplexIndicator,
    pub start_bit: u64,
    pub signal_size: u64,
    pub byte_order: ByteOrder,
    pub value_type: ValueType,
    pub factor: Seq<char>,
    pub offset: Seq<char>,
    pub min: Seq<char>,
    pub max: Seq<char>,
    pub unit: Seq<char>,
}

impl View for Signal {
    type V = SignalView;

    open spec fn view(&self) -> SignalView {
        SignalView {
            name: self.name@,
            multiplexer_indicator: self.multiplexer_indicator,
            start_bit: self.start_bit,
            signal_size: self.signal_size,
            byte_order: self.byte_order,
            value_type: self.value_type,
            factor: self.factor@,
            offset: self.offset@,
            min: self.min@,
            max: self.max@,
            unit: self.unit@,
        }
    }
}

impl DeepView for Signal {
    type V = SignalView;

    open spec fn deep_view(&self) -> SignalView {
        self@
    }
}

impl Clone for Signal {
    fn clone(&self) -> (r: Signal)
        ensures
            r@ == self@,
    {
        Signal {
            name: self.name.clone(),
            multiplexer_indicator: self.multiplexer_indicator,
            start_bit: self.start_bit,
            signal_size: self.signal_size,
            byte_order: self.byte_order,
            value_type: self.value_type,
            factor: self.factor.clone(),
            offset: self.offset.clone(),
            min: self.min.clone(),
            max: self.max.clone(),
            unit: self.unit.clone(),
        }
    }
}

/// One message frame with the signals it carries, in their order.
#[derive(Debug)]
pub struct Message {
    pub message_id: MessageId,
    pub message_name: String,
    pub message_size: u64,
    pub signals: Vec<Signal>,
}

/// What a [`Message`] holds.
pub struct MessageView {
    pub message_id: MessageId,
    pub message_name: Seq<char>,
    pub message_size: u64,
    pub signals: Seq<SignalView>,
}

impl View for Message {
    type V = MessageView;

    open spec fn view(&self) -> MessageView {
        MessageView {
            message_id: self.message_id,
            message_name: self.message_name@,
            message_size: self.message_size,
            signals: self.signals.deep_view(),
        }
    }
}

impl DeepView for Message {
    type V = MessageView;

    open spec fn deep_view(&self) -> MessageView {
        self@
    }
}

/// A comment of the database. Only comments on messages are read; any other
/// comment keeps its place among them and nothing else.
#[derive(Debug)]
pub enum Comment {
    Message { message_id: MessageId, comment: String },
    Other,
}

/// What a [`Comment`] holds.
pub enum CommentView {
    Message { message_id: MessageId, comment: Seq<char> },
    Other,
}

impl View for Comment {
    type V = CommentView;

    open spec fn view(&self) -> CommentView {
        match self {
            Comment::Message { message_id, comment } => CommentView::Message {
                message_id: *message_id,
                comment: comment@,
            },
            Comment::Other => CommentView::Other,
        }
    }
}

impl DeepView for Comment {
    type V = CommentView;

    open spec fn deep_view(&self) -> CommentView {
        self@
    }
}

/// A parsed signal database: its messages and its comments, each in the order
/// of the file they came from.
#[derive(Debug)]
pub struct Database {
    pub messages: Vec<Message>,
    pub comments: Vec<Comment>,
}

/// What a [`Database`] holds.
pub struct DatabaseView {
    pub messages: Seq<MessageView>,
    pub comments: Seq<CommentView>,
}

impl View for Database {
    type V = DatabaseView;

    open spec fn view(&self) -> DatabaseView {
        DatabaseView { messages: self.messages.deep_view(), comments: self.comments.deep_view() }
    }
}

impl DeepView for Database {
    type V = DatabaseView;

    open spec fn deep_view(&self) -> DatabaseView {
        self@
    }
}

/// The signals of the first `count` messages, one message after the other.
pub open spec fn signals_of(messages: Seq<MessageView>, count: nat) -> Seq<SignalView>
    decreases count,
{
    if count == 0 {
        Seq::empty()
    } else {
        signals_of(messages, (count - 1) as nat) + messages[count - 1].signals
    }
}

/// The signals of all messages, one message after the other.
pub open spec fn all_signals(messages: Seq<MessageView>) -> Seq<SignalView> {
    signals_of(messages, messages.len())
}

/// Anything that holds signals and can hand out a copy of each.
pub trait HasSignals {
    /// The signals held, in order.
    spec fn held_signals(&self) -> Seq<SignalView>;

    /// A copy of every signal, in order.
    fn signals(&self) -> (r: Vec<Signal>)
        ensures
            r.deep_view() == self.held_signals(),
    ;
}

impl HasSignals for Database {
    open spec fn held_signals(&self) -> Seq<SignalView> {
        all_signals(self@.messages)
    }

    fn signals(&self) -> (r: Vec<Signal>) {
        let mut out: Vec<Signal> = Vec::new();
        let mut i: usize = 0;
        while i < self.messages.len()
            invariant
                i <= self.messages.len(),
                out.deep_view() == signals_of(self@.messages, i as nat),
            decreases self.messages.len() - i,
        {
            let message = &self.messages[i];
            let mut j: usize = 0;
            while j < message.signals.len()
                invariant
                    i < self.messages.len(),
                    message == &self.messages[i as int],
                    j <= message.signals.len(),
                    out.deep_view() == signals_of(self@.messages, i as nat) + message@.signals.take(
                        j as int,
                    ),
                decreases message.signals.len() - j,
            {
                let ghost before = out.deep_view();
                out.push(message.signals[j].clone());
                assert(out.deep_view() =~= before.push(message@.signals[j as int]));
                j += 1;
            }
            i += 1;
        }
        out
    }
}

/// A database as the parser hands it out. Nothing inside is visible here: what
/// it holds is read through the functions below.
#[verifier::external_type_specification]
#[verifier::external_body]
pub struct ExDbc(can_dbc::DBC);

/// What the parser reports where it gives no database.
#[verifier::external_type_specification]
#[verifier::external_body]
pub struct ExParseError<'a>(can_dbc::Error<'a>);

/// The messages that a parsed database holds, in its order. Scaling and value
/// range of a signal stand in it as the text that formatting the number with
/// `{}` gives.
pub uninterp spec fn parsed_messages(dbc: can_dbc::DBC) -> Seq<MessageView>;

/// The comments that a parsed database holds, in its order.
pub uninterp spec fn parsed_comments(dbc: can_dbc::DBC) -> Seq<CommentView>;

/// What the parser makes of a text: the database, or nothing where the text is
/// no database.
pub uninterp spec fn parse_of(text: Seq<char>) -> Option<DatabaseView>;

/// All that is read of a parsed database.
pub open spec fn parsed(dbc: can_dbc::DBC) -> DatabaseView {
    DatabaseView { messages: parsed_messages(dbc), comments: parsed_comments(dbc) }
}

/// `can_dbc::DBC::from_slice` on the bytes of a text. The outcome depends on
/// the text alone and is given the name [`parse_of`]; what the database holds
/// is spoken of through [`parsed_messages`] and [`parsed_comments`]. Trusted,
/// not proved.
#[verifier::external_body]
fn parse<'a>(text: &'a str) -> (r: Result<can_dbc::DBC, can_dbc::Error<'a>>)
    ensures
        match r {
            Ok(dbc) => parse_of(text@) == Some(parsed(dbc)),
            Err(_) => parse_of(text@) is None,
        },
{
    can_dbc::DBC::from_slice(text.as_bytes())
}

/// The length of `DBC::messages`. Trusted, not proved.
#[verifier::external_body]
fn message_count(dbc: &can_dbc::DBC) -> (n: usize)
    ensures
        n == parsed_messages(*dbc).len(),
{
    dbc.messages().len()
}

/// `Message::message_id` of the message at place `m`, variant for variant.
/// Trusted, not proved.
#[verifier::external_body]
fn message_id_at(dbc: &can_dbc::DBC, m: usize) -> (r: MessageId)
    requires
        m < parsed_messages(*dbc).len(),
    ensures
        r == parsed_messages(*dbc)[m as int].message_id,
{
    match dbc.messages()[m].message_id() {
        can_dbc::MessageId::Standard(id) => MessageId::Standard(*id),
        can_dbc::MessageId::Extended(id) => MessageId::Extended(*id),
    }
}

/// `Message::message_name` of the message at place `m`. Trusted, not proved.
#[verifier::external_body]
fn message_name_at(dbc: &can_dbc::DBC, m: usize) -> (r: String)
    requires
        m < parsed_messages(*dbc).len(),
    ensures
        r@ == parsed_messages(*dbc)[m as int].message_name,
{
    dbc.messages()[m].message_name().clone()
}

/// `Message::message_size` of the message at place `m`. Trusted, not proved.
#[verifier::external_body]
fn message_size_at(dbc: &can_dbc::DBC, m: usize) -> (r: u64)
    requires
        m < parsed_messages(*dbc).len(),
    ensures
        r == parsed_messages(*dbc)[m as int].message_size,
{
    *dbc.messages()[m].message_size()
}

/// The length of `Message::signals` of the message at place `m`. Trusted, not
/// proved.
#[verifier::external_body]
fn signal_count(dbc: &can_dbc::DBC, m: usize) -> (n: usize)
    requires
        m < parsed_messages(*dbc).len(),
    ensures
        n == parsed_messages(*dbc)[m as int].signals.len(),
{
    dbc.messages()[m].signals().len()
}

/// Whether `s` is the place of a signal in the message at place `m`.
pub open spec fn signal_place(dbc: can_dbc::DBC, m: usize, s: usize) -> bool {
    m < parsed_messages(dbc).len() && s < parsed_messages(dbc)[m as int].signals.len()
}

/// `Signal::name` of the signal at place `s` of message `m`. Trusted, not
/// proved.
#[verifier::external_body]
fn signal_name_at(dbc: &can_dbc::DBC, m: usize, s: usize) -> (r: String)
    requires
        signal_place(*dbc, m, s),
    ensures
        r@ == parsed_messages(*dbc)[m as int].signals[s as int].name,
{
    dbc.messages()[m].signals()[s].name().clone()
}

/// `Signal::multiplexer_indicator` of the signal at place `s` of message `m`,
/// variant for variant. Trusted, not proved.
#[verifier::external_body]
fn signal_multiplexing_at(dbc: &can_dbc::DBC, m: usize, s: usize) -> (r: MultiplexIndicator)
    requires
        signal_place(*dbc, m, s),
    ensures
        r == parsed_messages(*dbc)[m as int].signals[s as int].multiplexer_indicator,
{
    match dbc.messages()[m].signals()[s].multiplexer_indicator() {
        can_dbc::MultiplexIndicator::Multiplexor => MultiplexIndicator::Multiplexor,
        can_dbc::MultiplexIndicator::MultiplexedSignal(at) => MultiplexIndicator::MultiplexedSignal(
            *at,
        ),
        can_dbc::MultiplexIndicator::MultiplexorAndMultiplexedSignal(at) => {
            MultiplexIndicator::MultiplexorAndMultiplexedSignal(*at)
        },
        can_dbc::MultiplexIndicator::Plain => MultiplexIndicator::Plain,
    }
}

/// The field `start_bit` of the signal at place `s` of message `m`. Trusted,
/// not proved.
#[verifier::external_body]
fn signal_start_bit_at(dbc: &can_dbc::DBC, m: usize, s: usize) -> (r: u64)
    requires
        signal_place(*dbc, m, s),
    ensures
        r == parsed_messages(*dbc)[m as int].signals[s as int].start_bit,
{
    dbc.messages()[m].signals()[s].start_bit
}

/// The field `signal_size` of the signal at place `s` of message `m`. Trusted,
/// not proved.
#[verifier::external_body]
fn signal_size_at(dbc: &can_dbc::DBC, m: usize, s: usize) -> (r: u64)
    requires
        signal_place(*dbc, m, s),
    ensures
        r == parsed_messages(*dbc)[m as int].signals[s as int].signal_size,
{
    dbc.messages()[m].signals()[s].signal_size
}

/// `Signal::byte_order` of the signal at place `s` of message `m`, variant for
/// variant. Trusted, not proved.
#[verifier::external_body]
fn signal_byte_order_at(dbc: &can_dbc::DBC, m: usize, s: usize) -> (r: ByteOrder)
    requires
        signal_place(*dbc, m, s),
    ensures
        r == parsed_messages(*dbc)[m as int].signals[s as int].byte_order,
{
    match dbc.messages()[m].signals()[s].byte_order() {
        can_dbc::ByteOrder::LittleEndian => ByteOrder::LittleEndian,
        can_dbc::ByteOrder::BigEndian => ByteOrder::BigEndian,
    }
}

/// `Signal::value_type` of the signal at place `s` of message `m`, variant for
/// variant. Trusted, not proved.
#[verifier::external_body]
fn signal_value_type_at(dbc: &can_dbc::DBC, m: usize, s: usize) -> (r: ValueType)
    requires
        signal_place(*dbc, m, s),
    ensures
        r == parsed_messages(*dbc)[m as int].signals[s as int].value_type,
{
    match dbc.messages()[m].signals()[s].value_type() {
        can_dbc::ValueType::Signed => ValueType::Signed,
        can_dbc::ValueType::Unsigned => ValueType::Unsigned,
    }
}

/// The field `factor` of the signal at place `s` of message `m`, formatted
/// with `{}`. Trusted, not proved.
#[verifier::external_body]
fn signal_factor_at(dbc: &can_dbc::DBC, m: usize, s: usize) -> (r: String)
    requires
        signal_place(*dbc, m, s),
    ensures
        r@ == parsed_messages(*dbc)[m as int].signals[s as int].factor,
{
    format!("{}", dbc.messages()[m].signals()[s].factor)
}

/// The field `offset` of the signal at place `s` of message `m`, formatted
/// with `{}`. Trusted, not proved.
#[verifier::external_body]
fn signal_offset_at(dbc: &can_dbc::DBC, m: usize, s: usize) -> (r: String)
    requires
        signal_place(*dbc, m, s),
    ensures
        r@ == parsed_messages(*dbc)[m as int].signals[s as int].offset,
{
    format!("{}", dbc.messages()[m].signals()[s].offset)
}

/// The field `min` of the signal at place `s` of message `m`, formatted with
/// `{}`. Trusted, not proved.
#[verifier::external_body]
fn signal_min_at(dbc: &can_dbc::DBC, m: usize, s: usize) -> (r: String)
    requires
        signal_place(*dbc, m, s),
    ensures
        r@ == parsed_messages(*dbc)[m as int].signals[s as int].min,
{
    format!("{}", dbc.messages()[m].signals()[s].min)
}

/// The field `max` of the signal at place `s` of message `m`, formatted with
/// `{}`. Trusted, not proved.
#[verifier::external_body]
fn signal_max_at(dbc: &can_dbc::DBC, m: usize, s: usize) -> (r: String)
    requires
        signal_place(*dbc, m, s),
    ensures
        r@ == parsed_messages(*dbc)[m as int].signals[s as int].max,
{
    format!("{}", dbc.messages()[m].signals()[s].max)
}

/// `Signal::unit` of the signal at place `s` of message `m`. Trusted, not
/// proved.
#[verifier::external_body]
fn signal_unit_at(dbc: &can_dbc::DBC, m: usize, s: usize) -> (r: String)
    requires
        signal_place(*dbc, m, s),
    ensures
        r@ == parsed_messages(*dbc)[m as int].signals[s as int].unit,
{
    dbc.messages()[m].signals()[s].unit().clone()
}

/// The length of `DBC::comments`. Trusted, not proved.
#[verifier::external_body]
fn comment_count(dbc: &can_dbc::DBC) -> (n: usize)
    ensures
        n == parsed_comments(*dbc).len(),
{
    dbc.comments().len()
}

/// The comment at place `i` of `DBC::comments`: a comment on a message with
/// its identifier and its text, any other kind without them. Trusted, not
/// proved.
#[verifier::external_body]
fn comment_at(dbc: &can_dbc::DBC, i: usize) -> (r: Comment)
    requires
        i < parsed_comments(*dbc).len(),
    ensures
        r@ == parsed_comments(*dbc)[i as int],
{
    match &dbc.comments()[i] {
        can_dbc::Comment::Message { message_id, comment } => Comment::Message {
            message_id: match message_id {
                can_dbc::MessageId::Standard(id) => MessageId::Standard(*id),
                can_dbc::MessageId::Extended(id) => MessageId::Extended(*id),
            },
            comment: comment.clone(),
        },
        can_dbc::Comment::Node { .. } => Comment::Other,
        can_dbc::Comment::Signal { .. } => Comment::Other,
        can_dbc::Comment::EnvVar { .. } => Comment::Other,
        can_dbc::Comment::Plain { .. } => Comment::Other,
    }
}

/// Why no database could be loaded.
#[derive(Debug, Clone, Copy, PartialEq, Eq, Structural)]
pub enum LoadError {
    /// The text is not a signal database.
    InvalidData,
}

impl LoadError {
    /// The message that tells the user of the error.
    pub open spec fn message_text(self) -> Seq<char> {
        "Invalid DBC input data."@
    }

    /// The message that tells the user of the error.
    pub fn message(&self) -> (r: &'static str)
        ensures
            r@ == self.message_text(),
    {
        "Invalid DBC input data."
    }
}

fn read_signal(dbc: &can_dbc::DBC, m: usize, s: usize) -> (r: Signal)
    requires
        signal_place(*dbc, m, s),
    ensures
        r@ == parsed_messages(*dbc)[m as int].signals[s as int],
{
    Signal {
        name: signal_name_at(dbc, m, s),
        multiplexer_indicator: signal_multiplexing_at(dbc, m, s),
        start_bit: signal_start_bit_at(dbc, m, s),
        signal_size: signal_size_at(dbc, m, s),
        byte_order: signal_byte_order_at(dbc, m, s),
        value_type: signal_value_type_at(dbc, m, s),
        factor: signal_factor_at(dbc, m, s),
        offset: signal_offset_at(dbc, m, s),
        min: signal_min_at(dbc, m, s),
        max: signal_max_at(dbc, m, s),
        unit: signal_unit_at(dbc, m, s),
    }
}

fn read_message(dbc: &can_dbc::DBC, m: usize) -> (r: Message)
    requires
        m < parsed_messages(*dbc).len(),
    ensures
        r@ == parsed_messages(*dbc)[m as int],
{
    let count = signal_count(dbc, m);
    let mut signals: Vec<Signal> = Vec::new();
    let mut s: usize = 0;
    while s < count
        invariant
            m < parsed_messages(*dbc).len(),
            count == parsed_messages(*dbc)[m as int].signals.len(),
            s <= count,
            signals.deep_view() == parsed_messages(*dbc)[m as int].signals.take(s as int),
        decreases count - s,
    {
        let signal = read_signal(dbc, m, s);
        signals.push(signal);
        assert(parsed_messages(*dbc)[m as int].signals.take(s as int + 1)
            =~= parsed_messages(*dbc)[m as int].signals.take(s as int).push(
            parsed_messages(*dbc)[m as int].signals[s as int],
        ));
        s += 1;
    }
    assert(parsed_messages(*dbc)[m as int].signals.take(count as int) =~= parsed_messages(
        *dbc,
    )[m as int].signals);
    Message {
        message_id: message_id_at(dbc, m),
        message_name: message_name_at(dbc, m),
        message_size: message_size_at(dbc, m),
        signals,
    }
}

impl Database {
    /// Reads out of a parsed database what the generator works on: every
    /// message with its signals, and every comment, in the parser's order.
    pub fn from_dbc(dbc: &can_dbc::DBC) -> (r: Database)
        ensures
            r@ == parsed(*dbc),
    {
        let message_total = message_count(dbc);
        let mut messages: Vec<Message> = Vec::new();
        let mut m: usize = 0;
        while m < message_total
            invariant
                message_total == parsed_messages(*dbc).len(),
                m <= message_total,
                messages.deep_view() == parsed_messages(*dbc).take(m as int),
            decreases message_total - m,
        {
            let message = read_message(dbc, m);
            messages.push(message);
            assert(parsed_messages(*dbc).take(m as int + 1) =~= parsed_messages(*dbc).take(
                m as int,
            ).push(parsed_messages(*dbc)[m as int]));
            m += 1;
        }
        assert(parsed_messages(*dbc).take(message_total as int) =~= parsed_messages(*dbc));
        let comment_total = comment_count(dbc);
        let mut comments: Vec<Comment> = Vec::new();
        let mut i: usize = 0;
        while i < comment_total
            invariant
                comment_total == parsed_comments(*dbc).len(),
                i <= comment_total,
                comments.deep_view() == parsed_comments(*dbc).take(i as int),
            decreases comment_total - i,
        {
            let comment = comment_at(dbc, i);
            comments.push(comment);
            assert(parsed_comments(*dbc).take(i as int + 1) =~= parsed_comments(*dbc).take(
                i as int,
            ).push(parsed_comments(*dbc)[i as int]));
            i += 1;
        }
        assert(parsed_comments(*dbc).take(comment_total as int) =~= parsed_comments(*dbc));
        Database { messages, comments }
    }
}

/// Parses the text of a signal database. A text that the parser does not take
/// whole is an error; from any other, the messages and comments come back as
/// the parser read them.
pub fn load_dbc(text: &str) -> (r: Result<Database, LoadError>)
    ensures
        match r {
            Ok(database) => parse_of(text@) == Some(database@),
            Err(error) => parse_of(text@) is None && error == LoadError::InvalidData,
        },
{
    match parse(text) {
        Ok(dbc) => Ok(Database::from_dbc(&dbc)),
        Err(_) => Err(LoadError::InvalidData),
    }
}

} // verus!
