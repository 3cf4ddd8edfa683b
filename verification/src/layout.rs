//! The layout of the generated arrays: every signal gets a place in one flat
//! sequence, and every message records the stretch of that sequence it owns.
//! Places in the two sequences are the only references between them.

use vstd::prelude::*;
use crate::dbc::{
    all_signals, signals_of, ByteOrder, Message, MessageView, MultiplexIndicator, SignalView,
    ValueType,
};
use crate::names::{sanitize, sanitized};
use crate::units::{classified, inference_failure, normalized, unit_of_key, InferredUnitType};

verus! {

/// One entry of the signal array.
#[derive(Debug)]
pub struct SignalDescriptor {
    /// The identifier of the signal, unique over all messages.
    pub name: String,
    /// The place of the owning message in the message sequence.
    pub parent_index: usize,
    pub start_bit: u64,
    pub signal_size: u64,
    pub byte_order: ByteOrder,
    pub value_type: ValueType,
    pub multiplexer_indicator: MultiplexIndicator,
    pub factor: String,
    pub offset: String,
    pub min: String,
    pub max: String,
    /// The unit label as the database gave it.
    pub unit_text: String,
    /// The category inferred from the unit label.
    pub unit: InferredUnitType,
}

/// What a [`SignalDescriptor`] holds.
pub struct SignalDescriptorView {
    pub name: Seq<char>,
    pub parent_index: nat,
    pub start_bit: u64,
    pub signal_size: u64,
    pub byte_order: ByteOrder,
    pub value_type: ValueType,
    pub multiplexer_indicator: MultiplexIndicator,
    pub factor: Seq<char>,
    pub offset: Seq<char>,
    pub min: Seq<char>,
    pub max: Seq<char>,
    pub unit_text: Seq<char>,
    pub unit: InferredUnitType,
}

impl View for SignalDescriptor {
    type V = SignalDescriptorView;

    open spec fn view(&self) -> SignalDescriptorView {
        SignalDescriptorView {
            name: self.name@,
            parent_index: self.parent_index as nat,
            start_bit: self.start_bit,
            signal_size: self.signal_size,
            byte_order: self.byte_order,
            value_type: self.value_type,
            multiplexer_indicator: self.multiplexer_indicator,
            factor: self.factor@,
            offset: self.offset@,
            min: self.min@,
            max: self.max@,
            unit_text: self.unit_text@,
            unit: self.unit,
        }
    }
}

impl DeepView for SignalDescriptor {
    type V = SignalDescriptorView;

    open spec fn deep_view(&self) -> SignalDescriptorView {
        self@
    }
}

/// One entry of the message array. The message owns the signals at the places
/// from `first_signal` up to, and not including, `end_signal`.
#[derive(Debug)]
pub struct MessageDescriptor {
    pub id: u32,
    pub name: String,
    pub expected_length: u64,
    pub first_signal: usize,
    pub end_signal: usize,
    pub num_signals: usize,
}

/// What a [`MessageDescriptor`] holds.
pub struct MessageDescriptorView {
    pub id: u32,
    pub name: Seq<char>,
    pub expected_length: u64,
    pub first_signal: nat,
    pub end_signal: nat,
    pub num_signals: nat,
}

impl View for MessageDescriptor {
    type V = MessageDescriptorView;

    open spec fn view(&self) -> MessageDescriptorView {
        MessageDescriptorView {
            id: self.id,
            name: self.name@,
            expected_length: self.expected_length,
            first_signal: self.first_signal as nat,
            end_signal: self.end_signal as nat,
            num_signals: self.num_signals as nat,
        }
    }
}

impl DeepView for MessageDescriptor {
    type V = MessageDescriptorView;

    open spec fn deep_view(&self) -> MessageDescriptorView {
        self@
    }
}

/// The signal sequence and the message sequence of one database.
#[derive(Debug)]
pub struct Layout {
    pub signals: Vec<SignalDescriptor>,
    pub messages: Vec<MessageDescriptor>,
}

/// What a [`Layout`] holds.
pub struct LayoutView {
    pub signals: Seq<SignalDescriptorView>,
    pub messages: Seq<MessageDescriptorView>,
}

impl View for Layout {
    type V = LayoutView;

    open spec fn view(&self) -> LayoutView {
        LayoutView { signals: self.signals.deep_view(), messages: self.messages.deep_view() }
    }
}

impl LayoutView {
    /// Every owned range lies inside the signal sequence, and every message
    /// counts as many signals as its range is long.
    pub open spec fn ranges_fit(self) -> bool {
        forall|m: int|
            0 <= m < self.messages.len() ==> {
                &&& (#[trigger] self.messages[m]).first_signal <= self.messages[m].end_signal
                &&& self.messages[m].end_signal <= self.signals.len()
                &&& self.messages[m].num_signals == self.messages[m].end_signal
                    - self.messages[m].first_signal
            }
    }

    /// The owned ranges, taken in message order, follow one another from the
    /// start of the signal sequence to its end, with no gap and no overlap.
    pub open spec fn ranges_tile(self) -> bool {
        &&& self.messages.len() == 0 ==> self.signals.len() == 0
        &&& self.messages.len() > 0 ==> self.messages.first().first_signal == 0
            && self.messages.last().end_signal == self.signals.len()
        &&& forall|m: int|
            0 <= m < self.messages.len() - 1 ==> (#[trigger] self.messages[m]).end_signal
                == self.messages[m + 1].first_signal
    }

    /// Every signal names a message of the sequence as its parent, and lies in
    /// the range that this message owns.
    pub open spec fn parents_own(self) -> bool {
        forall|k: int|
            0 <= k < self.signals.len() ==> {
                let parent = (#[trigger] self.signals[k]).parent_index as int;
                &&& parent < self.messages.len()
                &&& self.messages[parent].first_signal <= k < self.messages[parent].end_signal
            }
    }

    /// The two sequences refer to each other consistently.
    pub open spec fn wf(self) -> bool {
        &&& self.ranges_fit()
        &&& self.ranges_tile()
        &&& self.parents_own()
    }

    /// The signal counts of the first `count` messages, added up.
    pub open spec fn owned_total(self, count: nat) -> nat
        decreases count,
    {
        if count == 0 {
            0
        } else {
            self.owned_total((count - 1) as nat) + self.messages[count - 1].num_signals
        }
    }
}

/// The identifier under which a signal is emitted. The message's name is part
/// of it, so that signals of the same name in different messages stay apart.
pub open spec fn identifier(message_name: Seq<char>, signal_name: Seq<char>) -> Seq<char> {
    sanitized(message_name) + "_"@ + sanitized(signal_name)
}

/// The descriptor of one signal of the message at place `parent`.
pub open spec fn descriptor_of(
    message: MessageView,
    parent: nat,
    signal: SignalView,
) -> SignalDescriptorView {
    SignalDescriptorView {
        name: identifier(message.message_name, signal.name),
        parent_index: parent,
        start_bit: signal.start_bit,
        signal_size: signal.signal_size,
        byte_order: signal.byte_order,
        value_type: signal.value_type,
        multiplexer_indicator: signal.multiplexer_indicator,
        factor: signal.factor,
        offset: signal.offset,
        min: signal.min,
        max: signal.max,
        unit_text: signal.unit,
        unit: classified(signal.unit),
    }
}

/// The descriptors of all signals of the message at place `parent`, in the
/// order of the message.
pub open spec fn descriptors_of(message: MessageView, parent: nat) -> Seq<SignalDescriptorView> {
    Seq::new(message.signals.len(), |j: int| descriptor_of(message, parent, message.signals[j]))
}

/// The signal sequence up to the end of the first `count` messages.
pub open spec fn planned_signals(messages: Seq<MessageView>, count: nat) -> Seq<
    SignalDescriptorView,
>
    decreases count,
{
    if count == 0 {
        Seq::empty()
    } else {
        planned_signals(messages, (count - 1) as nat) + descriptors_of(
            messages[count - 1],
            (count - 1) as nat,
        )
    }
}

/// The descriptor of the message at place `i`: its range starts where the
/// signals of the messages before it end.
pub open spec fn planned_message(messages: Seq<MessageView>, i: int) -> MessageDescriptorView {
    MessageDescriptorView {
        id: messages[i].message_id.number(),
        name: sanitized(messages[i].message_name),
        expected_length: messages[i].message_size,
        first_signal: signals_of(messages, i as nat).len(),
        end_signal: signals_of(messages, (i + 1) as nat).len(),
        num_signals: messages[i].signals.len(),
    }
}

/// The layout of a list of messages. Messages and signals keep the order in
/// which they were given.
pub open spec fn planned(messages: Seq<MessageView>) -> LayoutView {
    LayoutView {
        signals: planned_signals(messages, messages.len()),
        messages: Seq::new(messages.len(), |i: int| planned_message(messages, i)),
    }
}

/// The diagnostics that classifying the unit labels of `signals` gives rise to:
/// one for each label that names no category, in the order of the signals.
pub open spec fn diagnostics_of(signals: Seq<SignalView>) -> Seq<Seq<char>>
    decreases signals.len(),
{
    if signals.len() == 0 {
        Seq::empty()
    } else if unit_of_key(normalized(signals.last().unit)) is None {
        diagnostics_of(signals.drop_last()).push(inference_failure(signals.last().unit))
    } else {
        diagnostics_of(signals.drop_last())
    }
}

proof fn lemma_signal_counts_grow(messages: Seq<MessageView>, a: nat, b: nat)
    requires
        a <= b,
    ensures
        signals_of(messages, a).len() <= signals_of(messages, b).len(),
    decreases b,
{
    if a < b {
        lemma_signal_counts_grow(messages, a, (b - 1) as nat);
    }
}

proof fn lemma_planned_signals(messages: Seq<MessageView>, count: nat)
    ensures
        planned_signals(messages, count).len() == signals_of(messages, count).len(),
        forall|k: int|
            0 <= k < planned_signals(messages, count).len() ==> {
                let parent = (#[trigger] planned_signals(messages, count)[k]).parent_index;
                &&& parent < count
                &&& signals_of(messages, parent).len() <= k < signals_of(
                    messages,
                    parent + 1,
                ).len()
            },
    decreases count,
{
    if count > 0 {
        lemma_planned_signals(messages, (count - 1) as nat);
    }
}

/// The layout of any list of messages is consistent: the owned ranges tile the
/// signal sequence in message order, each message counts the signals of its
/// range, and each signal lies in the range of the message it names as parent.
pub proof fn planned_layout_is_consistent(messages: Seq<MessageView>)
    ensures
        planned(messages).wf(),
        planned(messages).signals.len() == all_signals(messages).len(),
{
    let layout = planned(messages);
    lemma_planned_signals(messages, messages.len());
    assert forall|m: int| 0 <= m < layout.messages.len() implies {
        &&& (#[trigger] layout.messages[m]).first_signal <= layout.messages[m].end_signal
        &&& layout.messages[m].end_signal <= layout.signals.len()
        &&& layout.messages[m].num_signals == layout.messages[m].end_signal
            - layout.messages[m].first_signal
    } by {
        lemma_signal_counts_grow(messages, (m + 1) as nat, messages.len());
    }
}

/// In a consistent layout the signal sequence is as long as the signal counts
/// of all messages taken together.
pub proof fn owned_counts_add_up(layout: LayoutView)
    requires
        layout.wf(),
    ensures
        layout.owned_total(layout.messages.len()) == layout.signals.len(),
{
    if layout.messages.len() > 0 {
        lemma_owned_total(layout, layout.messages.len());
    }
}

proof fn lemma_owned_total(layout: LayoutView, count: nat)
    requires
        layout.wf(),
        0 < count <= layout.messages.len(),
    ensures
        layout.owned_total(count) == layout.messages[count - 1].end_signal,
    decreases count,
{
    let own = layout.messages[count - 1];
    if count > 1 {
        lemma_owned_total(layout, (count - 1) as nat);
    }
    assert(layout.owned_total(count) == layout.owned_total((count - 1) as nat) + own.num_signals);
}

/// Lays the messages out: walks them once, in the order given, appends the
/// descriptors of each message's signals to the signal sequence, and records
/// for each message where its signals start and end. A message without
/// signals owns an empty range. Comes back with the layout and with the
/// diagnostics of the unit labels that name no category.
pub fn plan(messages: &Vec<Message>) -> (r: (Layout, Vec<String>))
    ensures
        r.0@ == planned(messages.deep_view()),
        r.0@.wf(),
        r.1.deep_view() == diagnostics_of(all_signals(messages.deep_view())),
{
    let ghost source = messages.deep_view();
    let mut signals: Vec<SignalDescriptor> = Vec::new();
    let mut descriptors: Vec<MessageDescriptor> = Vec::new();
    let mut diagnostics: Vec<String> = Vec::new();
    let mut i: usize = 0;
    while i < messages.len()
        invariant
            source == messages.deep_view(),
            i <= messages.len(),
            signals.deep_view() == planned_signals(source, i as nat),
            descriptors.deep_view() == Seq::new(i as nat, |m: int| planned_message(source, m)),
            diagnostics.deep_view() == diagnostics_of(signals_of(source, i as nat)),
        decreases messages.len() - i,
    {
        let message = &messages[i];
        let name = sanitize(message.message_name.as_str());
        let first_signal = signals.len();
        proof {
            lemma_planned_signals(source, i as nat);
        }
        let mut j: usize = 0;
        while j < message.signals.len()
            invariant
                source == messages.deep_view(),
                i < messages.len(),
                message == &messages[i as int],
                name@ == sanitized(source[i as int].message_name),
                j <= message.signals.len(),
                signals.deep_view() == planned_signals(source, i as nat) + descriptors_of(
                    source[i as int],
                    i as nat,
                ).take(j as int),
                diagnostics.deep_view() == diagnostics_of(
                    signals_of(source, i as nat) + source[i as int].signals.take(j as int),
                ),
            decreases message.signals.len() - j,
        {
            let signal = &message.signals[j];
            let ghost held = signals_of(source, i as nat) + source[i as int].signals.take(j as int);
            let ghost grown = signals_of(source, i as nat) + source[i as int].signals.take(
                j as int + 1,
            );
            let ghost laid = signals.deep_view();
            let mut identifier = name.clone();
            identifier.append("_");
            identifier.append(sanitize(signal.name.as_str()).as_str());
            let classification = InferredUnitType::classify(signal.unit.as_str());
            match classification.diagnostic {
                Some(diagnostic) => {
                    diagnostics.push(diagnostic);
                },
                None => {},
            }
            let descriptor = SignalDescriptor {
                name: identifier,
                parent_index: i,
                start_bit: signal.start_bit,
                signal_size: signal.signal_size,
                byte_order: signal.byte_order,
                value_type: signal.value_type,
                multiplexer_indicator: signal.multiplexer_indicator,
                factor: signal.factor.clone(),
                offset: signal.offset.clone(),
                min: signal.min.clone(),
                max: signal.max.clone(),
                unit_text: signal.unit.clone(),
                unit: classification.unit,
            };
            signals.push(descriptor);
            proof {
                assert(signals.deep_view() =~= laid.push(
                    descriptor_of(source[i as int], i as nat, signal@),
                ));
                assert(grown.drop_last() =~= held);
            }
            j += 1;
        }
        let end_signal = signals.len();
        proof {
            assert(source[i as int].signals.take(j as int) =~= source[i as int].signals);
            lemma_planned_signals(source, (i + 1) as nat);
        }
        let ghost listed = descriptors.deep_view();
        let descriptor = MessageDescriptor {
            id: message.message_id.normalized(),
            name,
            expected_length: message.message_size,
            first_signal,
            end_signal,
            num_signals: message.signals.len(),
        };
        descriptors.push(descriptor);
        assert(descriptors.deep_view() =~= listed.push(planned_message(source, i as int)));
        i += 1;
    }
    proof {
        planned_layout_is_consistent(source);
    }
    (Layout { signals, messages: descriptors }, diagnostics)
}

} // verus!
