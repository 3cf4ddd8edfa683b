//! The text of the generated header and source files.

use vstd::prelude::*;
use crate::dbc::{
    all_signals, ByteOrder, Database, DatabaseView, HasSignals, MultiplexIndicator, ValueType,
};
use crate::layout::{
    diagnostics_of, plan, planned, Layout, LayoutView, MessageDescriptor, MessageDescriptorView,
    SignalDescriptor, SignalDescriptorView,
};
use crate::properties::{extract_value_from_comments, extracted};
use crate::text::{decimal, decimal_text, hex_text, hexadecimal, trim, trimmed};

verus! {

/// The notice at the top of both generated files.
pub const AUTO_GENERATED_STAMP: &'static str = "/*
    ========================================================================================
     THIS CODE HAS BEEN AUTO-GENERATED BY THE FAST_DBC_TO_C RUST TOOL.

        *~*~*~* DO NOT MODIFY THIS UNLESS YOU KNOW PRECISELY WHAT YOU ARE DOING. *~*~*~*


    @#@#@ PROJECT LICENSE @#@#@

    MIT License

    Copyright (c) 2025 Zack Puhl <github@xmit.xyz>

    Permission is hereby granted, free of charge, to any person obtaining a copy
    of this software and associated documentation files (the \"Software\"), to deal
    in the Software without restriction, including without limitation the rights
    to use, copy, modify, merge, publish, distribute, sublicense, and/or sell
    copies of the Software, and to permit persons to whom the Software is
    furnished to do so, subject to the following conditions:

    The above copyright notice and this permission notice shall be included in all
    copies or substantial portions of the Software.

    THE SOFTWARE IS PROVIDED \"AS IS\", WITHOUT WARRANTY OF ANY KIND, EXPRESS OR
    IMPLIED, INCLUDING BUT NOT LIMITED TO THE WARRANTIES OF MERCHANTABILITY,
    FITNESS FOR A PARTICULAR PURPOSE AND NONINFRINGEMENT. IN NO EVENT SHALL THE
    AUTHORS OR COPYRIGHT HOLDERS BE LIABLE FOR ANY CLAIM, DAMAGES OR OTHER
    LIABILITY, WHETHER IN AN ACTION OF CONTRACT, TORT OR OTHERWISE, ARISING FROM,
    OUT OF OR IN CONNECTION WITH THE SOFTWARE OR THE USE OR OTHER DEALINGS IN THE
    SOFTWARE.

    ========================================================================================
*/

";


/// The body of the initialization entry point. It is a placeholder: the
/// generated code lays the data out and wires nothing at run time.
pub const INIT_BODY: &'static str = "    /* PLACEHOLDER - Hi! */";

/// A text between double quotes, as a C string literal is written.
pub open spec fn quoted(text: Seq<char>) -> Seq<char> {
    "\""@ + text + "\""@
}

/// One line of a struct initializer: the designated field and its value.
pub open spec fn field(name: Seq<char>, value: Seq<char>) -> Seq<char> {
    "        ."@ + name + " = "@ + value + ",\n"@
}

/// A truth value as C writes it.
pub open spec fn flag(value: bool) -> Seq<char> {
    if value {
        "true"@
    } else {
        "false"@
    }
}

/// The name of a multiplex role.
pub open spec fn multiplex_type(role: MultiplexIndicator) -> Seq<char> {
    match role {
        MultiplexIndicator::MultiplexorAndMultiplexedSignal(_) => "MultiplexorAndMultiplexedSignal"@,
        MultiplexIndicator::MultiplexedSignal(_) => "MultiplexedSignal"@,
        MultiplexIndicator::Multiplexor => "Multiplexor"@,
        MultiplexIndicator::Plain => "Plain"@,
    }
}

/// The multiplexor value for which a signal is present; 0 for a signal that is
/// not multiplexed.
pub open spec fn multiplexor(role: MultiplexIndicator) -> u64 {
    match role {
        MultiplexIndicator::MultiplexedSignal(selector) => selector,
        MultiplexIndicator::MultiplexorAndMultiplexedSignal(selector) => selector,
        _ => 0,
    }
}

/// The reference from a signal to the message that owns it.
pub open spec fn parent_reference(parent: nat) -> Seq<char> {
    "(dbc_message_t *)&messages["@ + decimal(parent) + "]"@
}

/// The entry of one signal in the signal array. Run-time data is left
/// unpopulated.
pub open spec fn signal_entry(signal: SignalDescriptorView) -> Seq<char> {
    "\n    {\n"@ + field("name"@, quoted(signal.name)) + field(
        "parent_message"@,
        parent_reference(signal.parent_index),
    ) + field("widget_instances"@, "NULL"@) + field("num_widget_instances"@, "0"@) + field(
        "real_time_data"@,
        "{ false, 0.0f, PTHREAD_MUTEX_INITIALIZER }"@,
    ) + field("start_bit"@, decimal(signal.start_bit as nat)) + field(
        "signal_size"@,
        decimal(signal.signal_size as nat),
    ) + field("is_little_endian"@, flag(signal.byte_order == ByteOrder::LittleEndian)) + field(
        "is_unsigned"@,
        flag(signal.value_type == ValueType::Unsigned),
    ) + field("multiplex_type"@, multiplex_type(signal.multiplexer_indicator)) + field(
        "multiplexor"@,
        decimal(multiplexor(signal.multiplexer_indicator) as nat),
    ) + field("factor"@, signal.factor) + field("offset"@, signal.offset) + field(
        "minimum_value"@,
        signal.min,
    ) + field("maximum_value"@, signal.max) + field("unit_text"@, quoted(signal.unit_text))
        + field("parsed_unit_type"@, signal.unit.tag_text()) + "    },"@
}

/// What stands between the entry of the signal at place `k` and the entry
/// before it: a line break inside a message, nothing at the start of one.
pub open spec fn signal_separator(layout: LayoutView, k: int) -> Seq<char> {
    if layout.messages[layout.signals[k].parent_index as int].first_signal < k {
        "\n"@
    } else {
        Seq::empty()
    }
}

/// The entries of the first `count` signals, in sequence order.
pub open spec fn signal_entries(layout: LayoutView, count: nat) -> Seq<char>
    decreases count,
{
    if count == 0 {
        Seq::empty()
    } else {
        signal_entries(layout, (count - 1) as nat) + signal_separator(layout, count - 1)
            + signal_entry(layout.signals[count - 1])
    }
}

/// The body of the signal array: one entry per signal, in sequence order.
pub open spec fn signal_array(layout: LayoutView) -> Seq<char> {
    signal_entries(layout, layout.signals.len())
}

/// Pointers to the signals at the places from `first` up to, and not
/// including, `end`.
pub open spec fn signal_refs(first: nat, end: nat) -> Seq<char>
    decreases end,
{
    if end <= first {
        Seq::empty()
    } else {
        signal_refs(first, (end - 1) as nat) + " &signals["@ + decimal((end - 1) as nat) + "],"@
    }
}

/// The pointers of a message to the signals it owns, as an array literal.
pub open spec fn owned_signals(message: MessageDescriptorView) -> Seq<char> {
    "(dbc_signal_t *[]){"@ + signal_refs(message.first_signal, message.end_signal) + " }"@
}

/// The entry of one message in the message array.
pub open spec fn message_entry(message: MessageDescriptorView) -> Seq<char> {
    "\n    {\n"@ + field("id"@, "0x"@ + hexadecimal(message.id as nat)) + field(
        "name"@,
        quoted(message.name),
    ) + field("expected_length"@, decimal(message.expected_length as nat)) + field(
        "signals"@,
        owned_signals(message),
    ) + "        .num_signals = "@ + decimal(message.num_signals) + "\n    },"@
}

/// The entries of the first `count` messages, in sequence order.
pub open spec fn message_entries(layout: LayoutView, count: nat) -> Seq<char>
    decreases count,
{
    if count == 0 {
        Seq::empty()
    } else {
        message_entries(layout, (count - 1) as nat) + message_entry(layout.messages[count - 1])
    }
}

/// The body of the message array: one entry per message, in sequence order.
pub open spec fn message_array(layout: LayoutView) -> Seq<char> {
    message_entries(layout, layout.messages.len())
}

/// The definition of one vehicle property as a string constant.
pub open spec fn property_definition(dbc: DatabaseView, token: Seq<char>) -> Seq<char> {
    "const char *IC_"@ + token + " = \""@ + extracted(dbc.comments, token) + "\";\n"@
}

/// The definitions of all vehicle properties.
pub open spec fn property_definitions(dbc: DatabaseView) -> Seq<char> {
    property_definition(dbc, "VEHICLE_DBC_COMPILED_BY"@) + property_definition(
        dbc,
        "VEHICLE_NAME"@,
    ) + property_definition(dbc, "VEHICLE_SHORT_NAME"@) + property_definition(
        dbc,
        "VEHICLE_VERSION"@,
    ) + property_definition(dbc, "VEHICLE_OWNER_NAME"@) + property_definition(
        dbc,
        "VEHICLE_OWNER_PHONE"@,
    ) + property_definition(dbc, "VEHICLE_OWNER_EMAIL"@) + property_definition(
        dbc,
        "VEHICLE_EXTRA_INFO"@,
    )
}

/// The header: the include guard, the prototype of the initialization entry
/// point, and the lengths of the two arrays.
pub open spec fn header_text(signals: nat, messages: nat) -> Seq<char> {
    "#ifndef GEN_IC_VEHICLE_H\n#define GEN_IC_VEHICLE_H\n\n#include \"units.h\"\n\n"@
        + "void init_vehicle_dbc_data(void);\n\n"@ + "#define DBC_SIGNALS_LEN "@ + decimal(signals)
        + "\n#define DBC_MESSAGES_LEN "@ + decimal(messages) + "\n\n"@
        + "\n\n\n#endif   /* GEN_IC_VEHICLE_H */\n"@
}

/// The source: the vehicle properties, a forward declaration of the message
/// array, the signal array, the message array, the initialization entry point
/// and the handle that bundles the two arrays.
pub open spec fn source_text(dbc: DatabaseView) -> Seq<char> {
    "#include \"vehicle.h\"\n#include \"flex_ic.h\"\n\n#include <pthread.h>\n\n"@
        + property_definitions(dbc)
        + "\n\nconst dbc_message_t messages[DBC_MESSAGES_LEN];\n\n\ndbc_signal_t signals[DBC_SIGNALS_LEN] =\n{\n"@
        + signal_array(planned(dbc.messages))
        + "\n};\n\nconst dbc_message_t messages[DBC_MESSAGES_LEN] =\n{\n"@ + message_array(
        planned(dbc.messages),
    ) + "\n};\n\n\nvoid init_vehicle_dbc_data()\n{\n"@ + INIT_BODY@
        + "\n}\n\n\ndbc_t DBC = (dbc_t)\n{\n    .messages = (const dbc_message_t *)&messages,\n    .signals = (dbc_signal_t *)&signals,\n};\n\n"@
}

/// The lines that say when, and from which revision, the files were made. The
/// white space around the two values is not part of them.
pub open spec fn provenance(timestamp: Seq<char>, git_hash: Seq<char>) -> Seq<char> {
    "// Generation timestamp: "@ + trimmed(timestamp) + "\n// Git Hash: "@ + trimmed(git_hash)
        + "\n\n\n"@
}

/// The two generated files, complete, and the diagnostics to report.
#[derive(Debug)]
pub struct GeneratedCode {
    pub header: String,
    pub source: String,
    pub diagnostics: Vec<String>,
}

/// What a [`GeneratedCode`] holds.
pub struct GeneratedCodeView {
    pub header: Seq<char>,
    pub source: Seq<char>,
    pub diagnostics: Seq<Seq<char>>,
}

impl View for GeneratedCode {
    type V = GeneratedCodeView;

    open spec fn view(&self) -> GeneratedCodeView {
        GeneratedCodeView {
            header: self.header@,
            source: self.source@,
            diagnostics: self.diagnostics.deep_view(),
        }
    }
}

/// The bodies of the two arrays, and the diagnostics to report.
#[derive(Debug)]
pub struct StructBodies {
    pub signals: String,
    pub messages: String,
    pub diagnostics: Vec<String>,
}

/// What generating from a database and the two provenance values gives: both
/// files start with the notice and the provenance lines; the header and the
/// source follow; the diagnostics are those of the unit labels.
pub open spec fn generated(
    dbc: DatabaseView,
    timestamp: Seq<char>,
    git_hash: Seq<char>,
    code: GeneratedCodeView,
) -> bool {
    &&& code.header == AUTO_GENERATED_STAMP@ + provenance(timestamp, git_hash) + header_text(
        all_signals(dbc.messages).len(),
        dbc.messages.len(),
    )
    &&& code.source == AUTO_GENERATED_STAMP@ + provenance(timestamp, git_hash) + source_text(dbc)
    &&& code.diagnostics == diagnostics_of(all_signals(dbc.messages))
}

fn put_field(out: &mut String, name: &str, value: &str)
    ensures
        final(out)@ == old(out)@ + field(name@, value@),
{
    out.append("        .");
    out.append(name);
    out.append(" = ");
    out.append(value);
    out.append(",\n");
}

fn quote(text: &str) -> (r: String)
    ensures
        r@ == quoted(text@),
{
    let mut out = String::from_str("\"");
    out.append(text);
    out.append("\"");
    out
}

fn flag_text(value: bool) -> (r: &'static str)
    ensures
        r@ == flag(value),
{
    if value {
        "true"
    } else {
        "false"
    }
}

fn multiplex_type_name(role: &MultiplexIndicator) -> (r: &'static str)
    ensures
        r@ == multiplex_type(*role),
{
    match role {
        MultiplexIndicator::MultiplexorAndMultiplexedSignal(_) => "MultiplexorAndMultiplexedSignal",
        MultiplexIndicator::MultiplexedSignal(_) => "MultiplexedSignal",
        MultiplexIndicator::Multiplexor => "Multiplexor",
        MultiplexIndicator::Plain => "Plain",
    }
}

fn multiplexor_of(role: &MultiplexIndicator) -> (r: u64)
    ensures
        r == multiplexor(*role),
{
    match role {
        MultiplexIndicator::MultiplexedSignal(selector) => *selector,
        MultiplexIndicator::MultiplexorAndMultiplexedSignal(selector) => *selector,
        _ => 0,
    }
}

/// Writes the entry of one signal.
pub fn emit_signal_entry(signal: &SignalDescriptor) -> (r: String)
    ensures
        r@ == signal_entry(signal@),
{
    let mut parent = String::from_str("(dbc_message_t *)&messages[");
    parent.append(decimal_text(signal.parent_index as u64).as_str());
    parent.append("]");
    let mut out = String::from_str("\n    {\n");
    put_field(&mut out, "name", quote(signal.name.as_str()).as_str());
    put_field(&mut out, "parent_message", parent.as_str());
    put_field(&mut out, "widget_instances", "NULL");
    put_field(&mut out, "num_widget_instances", "0");
    put_field(&mut out, "real_time_data", "{ false, 0.0f, PTHREAD_MUTEX_INITIALIZER }");
    put_field(&mut out, "start_bit", decimal_text(signal.start_bit).as_str());
    put_field(&mut out, "signal_size", decimal_text(signal.signal_size).as_str());
    put_field(&mut out, "is_little_endian", flag_text(signal.byte_order == ByteOrder::LittleEndian));
    put_field(&mut out, "is_unsigned", flag_text(signal.value_type == ValueType::Unsigned));
    put_field(&mut out, "multiplex_type", multiplex_type_name(&signal.multiplexer_indicator));
    put_field(
        &mut out,
        "multiplexor",
        decimal_text(multiplexor_of(&signal.multiplexer_indicator)).as_str(),
    );
    put_field(&mut out, "factor", signal.factor.as_str());
    put_field(&mut out, "offset", signal.offset.as_str());
    put_field(&mut out, "minimum_value", signal.min.as_str());
    put_field(&mut out, "maximum_value", signal.max.as_str());
    put_field(&mut out, "unit_text", quote(signal.unit_text.as_str()).as_str());
    put_field(&mut out, "parsed_unit_type", signal.unit.tag());
    out.append("    },");
    out
}

/// Writes the body of the signal array: the entry of every signal, in sequence
/// order.
pub fn emit_signal_array(layout: &Layout) -> (r: String)
    requires
        layout@.wf(),
    ensures
        r@ == signal_array(layout@),
{
    let mut out = String::new();
    let mut k: usize = 0;
    while k < layout.signals.len()
        invariant
            layout@.wf(),
            k <= layout.signals.len(),
            out@ == signal_entries(layout@, k as nat),
        decreases layout.signals.len() - k,
    {
        let signal = &layout.signals[k];
        assert(layout@.signals[k as int] == signal@);
        if layout.messages[signal.parent_index].first_signal < k {
            out.append("\n");
        } else {
            assert(out@ + Seq::<char>::empty() == out@);
        }
        out.append(emit_signal_entry(signal).as_str());
        k += 1;
    }
    out
}

fn emit_signal_refs(first: usize, end: usize) -> (r: String)
    ensures
        r@ == signal_refs(first as nat, end as nat),
{
    let mut out = String::new();
    if first >= end {
        return out;
    }
    let mut x: usize = first;
    while x < end
        invariant
            first <= x <= end,
            out@ == signal_refs(first as nat, x as nat),
        decreases end - x,
    {
        out.append(" &signals[");
        out.append(decimal_text(x as u64).as_str());
        out.append("],");
        x += 1;
    }
    out
}

/// Writes the entry of one message.
pub fn emit_message_entry(message: &MessageDescriptor) -> (r: String)
    ensures
        r@ == message_entry(message@),
{
    let mut id = String::from_str("0x");
    id.append(hex_text(message.id).as_str());
    let mut owned = String::from_str("(dbc_signal_t *[]){");
    owned.append(emit_signal_refs(message.first_signal, message.end_signal).as_str());
    owned.append(" }");
    let mut out = String::from_str("\n    {\n");
    put_field(&mut out, "id", id.as_str());
    put_field(&mut out, "name", quote(message.name.as_str()).as_str());
    put_field(&mut out, "expected_length", decimal_text(message.expected_length).as_str());
    put_field(&mut out, "signals", owned.as_str());
    out.append("        .num_signals = ");
    out.append(decimal_text(message.num_signals as u64).as_str());
    out.append("\n    },");
    out
}

/// Writes the body of the message array: the entry of every message, in
/// sequence order.
pub fn emit_message_array(layout: &Layout) -> (r: String)
    ensures
        r@ == message_array(layout@),
{
    let mut out = String::new();
    let mut m: usize = 0;
    while m < layout.messages.len()
        invariant
            m <= layout.messages.len(),
            out@ == message_entries(layout@, m as nat),
        decreases layout.messages.len() - m,
    {
        assert(layout@.messages[m as int] == layout.messages[m as int]@);
        out.append(emit_message_entry(&layout.messages[m]).as_str());
        m += 1;
    }
    out
}

/// Lays the database out and writes the bodies of the signal array and of the
/// message array.
pub fn gen_src_dbc_structs(dbc: &Database) -> (r: StructBodies)
    ensures
        r.signals@ == signal_array(planned(dbc@.messages)),
        r.messages@ == message_array(planned(dbc@.messages)),
        r.diagnostics.deep_view() == diagnostics_of(all_signals(dbc@.messages)),
{
    let (layout, diagnostics) = plan(&dbc.messages);
    StructBodies {
        signals: emit_signal_array(&layout),
        messages: emit_message_array(&layout),
        diagnostics,
    }
}

/// Writes the body of the initialization entry point.
pub fn gen_src_func_init_vehicle_dbc_data(_dbc: &Database) -> (r: String)
    ensures
        r@ == INIT_BODY@,
{
    String::from_str(INIT_BODY)
}

/// Writes the definition of the vehicle property `token`.
pub fn gen_src_get_property(dbc: &Database, token: &str) -> (r: String)
    ensures
        r@ == property_definition(dbc@, token@),
{
    let mut out = String::from_str("const char *IC_");
    out.append(token);
    out.append(" = \"");
    out.append(extract_value_from_comments(dbc, token).as_str());
    out.append("\";\n");
    out
}

/// Writes the header.
pub fn generate_header(dbc: &Database) -> (r: String)
    ensures
        r@ == header_text(all_signals(dbc@.messages).len(), dbc@.messages.len()),
{
    let signals = dbc.signals();
    let mut out = String::from_str(
        "#ifndef GEN_IC_VEHICLE_H\n#define GEN_IC_VEHICLE_H\n\n#include \"units.h\"\n\n",
    );
    out.append("void init_vehicle_dbc_data(void);\n\n");
    out.append("#define DBC_SIGNALS_LEN ");
    out.append(decimal_text(signals.len() as u64).as_str());
    out.append("\n#define DBC_MESSAGES_LEN ");
    out.append(decimal_text(dbc.messages.len() as u64).as_str());
    out.append("\n\n");
    out.append("\n\n\n#endif   /* GEN_IC_VEHICLE_H */\n");
    out
}

/// Writes the source, and hands back the diagnostics with it.
pub fn generate_source(dbc: &Database) -> (r: (String, Vec<String>))
    ensures
        r.0@ == source_text(dbc@),
        r.1.deep_view() == diagnostics_of(all_signals(dbc@.messages)),
{
    let mut out = String::from_str(
        "#include \"vehicle.h\"\n#include \"flex_ic.h\"\n\n#include <pthread.h>\n\n",
    );
    let mut properties = gen_src_get_property(dbc, "VEHICLE_DBC_COMPILED_BY");
    properties.append(gen_src_get_property(dbc, "VEHICLE_NAME").as_str());
    properties.append(gen_src_get_property(dbc, "VEHICLE_SHORT_NAME").as_str());
    properties.append(gen_src_get_property(dbc, "VEHICLE_VERSION").as_str());
    properties.append(gen_src_get_property(dbc, "VEHICLE_OWNER_NAME").as_str());
    properties.append(gen_src_get_property(dbc, "VEHICLE_OWNER_PHONE").as_str());
    properties.append(gen_src_get_property(dbc, "VEHICLE_OWNER_EMAIL").as_str());
    properties.append(gen_src_get_property(dbc, "VEHICLE_EXTRA_INFO").as_str());
    out.append(properties.as_str());
    let bodies = gen_src_dbc_structs(dbc);
    out.append(
        "\n\nconst dbc_message_t messages[DBC_MESSAGES_LEN];\n\n\ndbc_signal_t signals[DBC_SIGNALS_LEN] =\n{\n",
    );
    out.append(bodies.signals.as_str());
    out.append("\n};\n\nconst dbc_message_t messages[DBC_MESSAGES_LEN] =\n{\n");
    out.append(bodies.messages.as_str());
    out.append("\n};\n\n\nvoid init_vehicle_dbc_data()\n{\n");
    out.append(gen_src_func_init_vehicle_dbc_data(dbc).as_str());
    out.append(
        "\n}\n\n\ndbc_t DBC = (dbc_t)\n{\n    .messages = (const dbc_message_t *)&messages,\n    .signals = (dbc_signal_t *)&signals,\n};\n\n",
    );
    (out, bodies.diagnostics)
}

fn provenance_lines(timestamp: &str, git_hash: &str) -> (r: String)
    ensures
        r@ == AUTO_GENERATED_STAMP@ + provenance(timestamp@, git_hash@),
{
    let mut out = String::from_str(AUTO_GENERATED_STAMP);
    let mut lines = String::from_str("// Generation timestamp: ");
    lines.append(trim(timestamp));
    lines.append("\n// Git Hash: ");
    lines.append(trim(git_hash));
    lines.append("\n\n\n");
    out.append(lines.as_str());
    out
}

/// Generates both files from a parsed database. The time stamp and the
/// revision hash are taken as given and written into both files, without the
/// white space around them. Unit labels that name no category do not stop the
/// generation: they come back as diagnostics.
pub fn generate_from_dbc(dbc: &Database, timestamp: &str, git_hash: &str) -> (r: GeneratedCode)
    ensures
        generated(dbc@, timestamp@, git_hash@, r@),
{
    let mut header = provenance_lines(timestamp, git_hash);
    header.append(generate_header(dbc).as_str());
    let mut source = provenance_lines(timestamp, git_hash);
    let (body, diagnostics) = generate_source(dbc);
    source.append(body.as_str());
    GeneratedCode { header, source, diagnostics }
}

/// Generation is deterministic: from the same database and the same
/// provenance values come the same two files, letter for letter, and the same
/// diagnostics.
pub proof fn generation_is_deterministic(
    dbc: DatabaseView,
    timestamp: Seq<char>,
    git_hash: Seq<char>,
    first: GeneratedCodeView,
    second: GeneratedCodeView,
)
    requires
        generated(dbc, timestamp, git_hash, first),
        generated(dbc, timestamp, git_hash, second),
    ensures
        first == second,
{
}

} // verus!
