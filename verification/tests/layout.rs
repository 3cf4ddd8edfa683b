use fast_dbc_to_c::dbc::{
    ByteOrder, Database, HasSignals, Message, MessageId, MultiplexIndicator, Signal, ValueType,
};
use fast_dbc_to_c::layout::{plan, Layout};
use fast_dbc_to_c::units::InferredUnitType;

fn signal(name: &str, unit: &str) -> Signal {
    Signal {
        name: name.to_string(),
        multiplexer_indicator: MultiplexIndicator::Plain,
        start_bit: 3,
        signal_size: 12,
        byte_order: ByteOrder::BigEndian,
        value_type: ValueType::Signed,
        factor: "2".to_string(),
        offset: "-1".to_string(),
        min: "0".to_string(),
        max: "100".to_string(),
        unit: unit.to_string(),
    }
}

fn message(id: MessageId, name: &str, signals: Vec<Signal>) -> Message {
    Message { message_id: id, message_name: name.to_string(), message_size: 8, signals }
}

fn sample() -> Vec<Message> {
    vec![
        message(MessageId::Standard(1), "A", vec![signal("x", "V"), signal("y", "A")]),
        message(MessageId::Standard(2), "B", vec![]),
        message(MessageId::Extended(3), "C d", vec![signal("x", "zorkmids")]),
        message(MessageId::Standard(4), "E", vec![]),
        message(MessageId::Standard(5), "F", vec![signal("p", ""), signal("q", "%"), signal("r", "?")]),
    ]
}

fn check_consistency(layout: &Layout, messages: &[Message]) {
    assert_eq!(layout.messages.len(), messages.len());
    let total: usize = messages.iter().map(|m| m.signals.len()).sum();
    assert_eq!(layout.signals.len(), total);
    let counted: usize = layout.messages.iter().map(|m| m.num_signals).sum();
    assert_eq!(layout.signals.len(), counted);
    let mut next = 0;
    for (descriptor, message) in layout.messages.iter().zip(messages) {
        assert_eq!(descriptor.first_signal, next);
        assert_eq!(descriptor.num_signals, message.signals.len());
        assert_eq!(descriptor.end_signal - descriptor.first_signal, descriptor.num_signals);
        next = descriptor.end_signal;
    }
    assert_eq!(next, layout.signals.len());
    for (place, descriptor) in layout.signals.iter().enumerate() {
        let parent = &layout.messages[descriptor.parent_index];
        assert!(parent.first_signal <= place && place < parent.end_signal);
    }
}

#[test]
fn owned_ranges_tile_the_signal_sequence() {
    let messages = sample();
    let (layout, _) = plan(&messages);
    check_consistency(&layout, &messages);
    let ranges: Vec<(usize, usize)> =
        layout.messages.iter().map(|m| (m.first_signal, m.end_signal)).collect();
    assert_eq!(ranges, vec![(0, 2), (2, 2), (2, 3), (3, 3), (3, 6)]);
}

#[test]
fn every_signal_lies_in_the_range_of_its_parent() {
    let (layout, _) = plan(&sample());
    let parents: Vec<usize> = layout.signals.iter().map(|s| s.parent_index).collect();
    assert_eq!(parents, vec![0, 0, 2, 4, 4, 4]);
}

#[test]
fn message_without_signals_owns_an_empty_range() {
    let messages = vec![message(MessageId::Standard(9), "Lonely", vec![])];
    let (layout, diagnostics) = plan(&messages);
    check_consistency(&layout, &messages);
    assert!(layout.signals.is_empty());
    assert_eq!(layout.messages[0].first_signal, 0);
    assert_eq!(layout.messages[0].end_signal, 0);
    assert_eq!(layout.messages[0].num_signals, 0);
    assert!(diagnostics.is_empty());
}

#[test]
fn no_messages_give_an_empty_layout() {
    let (layout, diagnostics) = plan(&vec![]);
    assert!(layout.signals.is_empty());
    assert!(layout.messages.is_empty());
    assert!(diagnostics.is_empty());
}

#[test]
fn order_of_messages_and_signals_is_kept() {
    let (layout, _) = plan(&sample());
    let names: Vec<&str> = layout.signals.iter().map(|s| s.name.as_str()).collect();
    assert_eq!(names, vec!["A_x", "A_y", "C_d_x", "F_p", "F_q", "F_r"]);
    let messages: Vec<&str> = layout.messages.iter().map(|m| m.name.as_str()).collect();
    assert_eq!(messages, vec!["A", "B", "C_d", "E", "F"]);
}

#[test]
fn signals_of_the_same_name_get_different_identifiers() {
    let (layout, _) = plan(&sample());
    assert_eq!(layout.signals[0].name, "A_x");
    assert_eq!(layout.signals[2].name, "C_d_x");
}

#[test]
fn identifiers_are_normalized_to_32_bits() {
    let messages = vec![
        message(MessageId::Standard(0x7FF), "S", vec![]),
        message(MessageId::Standard(u16::MAX), "T", vec![]),
        message(MessageId::Extended(0x1FFF_FFFF), "U", vec![]),
        message(MessageId::Extended(0x7FF), "V", vec![]),
    ];
    let (layout, _) = plan(&messages);
    let ids: Vec<u32> = layout.messages.iter().map(|m| m.id).collect();
    assert_eq!(ids, vec![0x7FF, 0xFFFF, 0x1FFF_FFFF, 0x7FF]);
    assert_eq!(MessageId::Standard(0x100).normalized(), 0x100);
    assert_eq!(MessageId::Extended(0x100).normalized(), 0x100);
}

#[test]
fn descriptor_carries_the_signal_through() {
    let (layout, _) = plan(&sample());
    let first = &layout.signals[0];
    assert_eq!(first.start_bit, 3);
    assert_eq!(first.signal_size, 12);
    assert_eq!(first.byte_order, ByteOrder::BigEndian);
    assert_eq!(first.value_type, ValueType::Signed);
    assert_eq!(first.multiplexer_indicator, MultiplexIndicator::Plain);
    assert_eq!(first.factor, "2");
    assert_eq!(first.offset, "-1");
    assert_eq!(first.min, "0");
    assert_eq!(first.max, "100");
    assert_eq!(first.unit_text, "V");
    assert_eq!(first.unit, InferredUnitType::Volts);
    assert_eq!(layout.messages[0].expected_length, 8);
}

#[test]
fn units_are_classified_and_misses_reported_in_order() {
    let messages = vec![
        message(MessageId::Standard(1), "A", vec![signal("x", "zorkmids"), signal("y", "A")]),
        message(MessageId::Standard(2), "B", vec![signal("z", " Smoots ")]),
    ];
    let (layout, diagnostics) = plan(&messages);
    let units: Vec<InferredUnitType> = layout.signals.iter().map(|s| s.unit).collect();
    assert_eq!(
        units,
        vec![InferredUnitType::Raw, InferredUnitType::Amperes, InferredUnitType::Raw]
    );
    assert_eq!(
        diagnostics,
        vec![
            "Could not infer unit type from 'zorkmids'".to_string(),
            "Could not infer unit type from ' Smoots '".to_string(),
        ]
    );
}

#[test]
fn signals_of_a_database_are_those_of_its_messages_in_order() {
    let dbc = Database { messages: sample(), comments: vec![] };
    let names: Vec<String> = dbc.signals().into_iter().map(|s| s.name).collect();
    assert_eq!(names, vec!["x", "y", "x", "p", "q", "r"]);
    let copy = dbc.signals();
    assert_eq!(copy[1].unit, "A");
    assert_eq!(copy[1].factor, "2");
    assert_eq!(copy[1].start_bit, 3);
}
