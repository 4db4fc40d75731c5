//! What the alert sinks send for a result: the content, not the transport.
use vstd::prelude::*;

use crate::clock::UtcTime;
use crate::types::{InvariantResult, InvariantStatus, ResultView, TraceEntries};

verus! {

/// Embed colour of a status: green, red or orange.
pub open spec fn color_of(status: InvariantStatus) -> u32 {
    match status {
        InvariantStatus::Holds => 0x00FF00,
        InvariantStatus::Violated => 0xFF0000,
        InvariantStatus::Error => 0xFFAA00,
    }
}

/// Emoji of a status.
pub open spec fn emoji_of(status: InvariantStatus) -> Seq<char> {
    match status {
        InvariantStatus::Holds => "✅"@,
        InvariantStatus::Violated => "🚨"@,
        InvariantStatus::Error => "⚠️"@,
    }
}

/// Upper-case label of a status.
pub open spec fn label_of(status: InvariantStatus) -> Seq<char> {
    match status {
        InvariantStatus::Holds => "OK"@,
        InvariantStatus::Violated => "VIOLATED"@,
        InvariantStatus::Error => "ERROR"@,
    }
}

/// Lower-case status word of the generic webhook payload.
pub open spec fn webhook_word(status: InvariantStatus) -> Seq<char> {
    match status {
        InvariantStatus::Holds => "ok"@,
        InvariantStatus::Violated => "violated"@,
        InvariantStatus::Error => "error"@,
    }
}

/// Embed colour of a status.
pub fn status_color(status: InvariantStatus) -> (r: u32)
    ensures
        r == color_of(status),
{
    match status {
        InvariantStatus::Holds => 0x00FF00,
        InvariantStatus::Violated => 0xFF0000,
        InvariantStatus::Error => 0xFFAA00,
    }
}

/// Emoji of a status.
pub fn status_emoji(status: InvariantStatus) -> (r: &'static str)
    ensures
        r@ == emoji_of(status),
{
    match status {
        InvariantStatus::Holds => "✅",
        InvariantStatus::Violated => "🚨",
        InvariantStatus::Error => "⚠️",
    }
}

/// Upper-case label of a status.
pub fn status_label(status: InvariantStatus) -> (r: &'static str)
    ensures
        r@ == label_of(status),
{
    match status {
        InvariantStatus::Holds => "OK",
        InvariantStatus::Violated => "VIOLATED",
        InvariantStatus::Error => "ERROR",
    }
}

/// Lower-case status word of the generic webhook payload.
pub fn webhook_status(status: InvariantStatus) -> (r: &'static str)
    ensures
        r@ == webhook_word(status),
{
    match status {
        InvariantStatus::Holds => "ok",
        InvariantStatus::Violated => "violated",
        InvariantStatus::Error => "error",
    }
}

/// One field of a Discord embed.
#[derive(Clone, Debug)]
pub struct DiscordField {
    pub name: String,
    pub value: String,
    pub inline: bool,
}

/// A Discord embed describing one result.
#[derive(Clone, Debug)]
pub struct DiscordEmbed {
    pub title: String,
    pub description: String,
    pub color: u32,
    pub fields: Vec<DiscordField>,
    pub timestamp: UtcTime,
}

/// A Discord webhook message.
#[derive(Clone, Debug)]
pub struct DiscordMessage {
    pub content: Option<String>,
    pub embeds: Vec<DiscordEmbed>,
}

/// Heading of a message about a violation.
pub const VIOLATION_HEADING: &'static str = "🚨 **Invariant Violation Detected**";

/// The trace inputs as bullet lines, `• **name**: value`, one per line.
pub open spec fn inputs_text(entries: TraceEntries) -> Seq<char>
    decreases entries.len(),
{
    if entries.len() == 0 {
        Seq::empty()
    } else {
        let line = "• **"@ + entries.last().0 + "**: "@ + entries.last().1;
        if entries.len() == 1 {
            line
        } else {
            inputs_text(entries.drop_last()) + "\n"@ + line
        }
    }
}

/// The fields of the embed for `r`, as name, value and inline flag.
pub open spec fn embed_fields(r: ResultView) -> Seq<(Seq<char>, Seq<char>, bool)> {
    let base = seq![
        ("Status"@, emoji_of(r.status) + " "@ + label_of(r.status), true),
        ("Invariant ID"@, r.id, true),
        ("Formula"@, "`"@ + r.formula + "`"@, false),
        ("Result"@, "`"@ + r.result + "`"@, false),
    ];
    let with_reason = match r.reason {
        Some(m) => base.push(("Violation Reason"@, m, false)),
        None => base,
    };
    if r.entries.len() > 0 {
        with_reason.push(("Computation Inputs"@, inputs_text(r.entries), false))
    } else {
        with_reason
    }
}

/// The views of embed fields.
pub open spec fn field_views(fields: Seq<DiscordField>) -> Seq<(Seq<char>, Seq<char>, bool)> {
    fields.map_values(|f: DiscordField| (f.name@, f.value@, f.inline))
}

fn discord_field(name: &str, value: String, inline: bool) -> (r: DiscordField)
    ensures
        r.name@ == name@,
        r.value == value,
        r.inline == inline,
{
    DiscordField { name: String::from_str(name), value, inline }
}

/// The trace inputs as bullet lines.
fn render_inputs(inputs: &Vec<(String, String)>) -> (r: String)
    ensures
        r@ == inputs_text(inputs@.map_values(|p: (String, String)| (p.0@, p.1@))),
{
    let ghost entries = inputs@.map_values(|p: (String, String)| (p.0@, p.1@));
    let mut out = String::new();
    let mut i: usize = 0;
    while i < inputs.len()
        invariant
            entries == inputs@.map_values(|p: (String, String)| (p.0@, p.1@)),
            i <= inputs@.len(),
            out@ == inputs_text(entries.subrange(0, i as int)),
        decreases inputs@.len() - i,
    {
        proof {
            assert(entries.subrange(0, i + 1).drop_last() =~= entries.subrange(0, i as int));
            assert(entries.subrange(0, i + 1).last() == entries[i as int]);
        }
        if i > 0 {
            out.append("\n");
        }
        out.append("• **");
        out.append(inputs[i].0.as_str());
        out.append("**: ");
        out.append(inputs[i].1.as_str());
        i = i + 1;
    }
    proof {
        assert(entries.subrange(0, inputs@.len() as int) =~= entries);
    }
    out
}

/// The Discord message for `result`: one embed titled with the status emoji
/// and the name, with the status, id, formula and result, the reason where
/// there is one and the inputs where there are any; a heading line is added
/// for a violation.
pub fn discord_message(result: &InvariantResult) -> (r: DiscordMessage)
    ensures
        r.embeds@.len() == 1,
        r.embeds@[0].title@ == emoji_of(result.status) + " "@ + result.name@,
        r.embeds@[0].description@ == result.description@,
        r.embeds@[0].color == color_of(result.status),
        r.embeds@[0].timestamp == result.evaluated_at,
        field_views(r.embeds@[0].fields@) == embed_fields(result@),
        result.status == InvariantStatus::Violated ==> (r.content matches Some(c) && c@ == VIOLATION_HEADING@),
        result.status != InvariantStatus::Violated ==> r.content is None,
{
    let emoji = status_emoji(result.status);
    let mut status_value = String::from_str(emoji);
    status_value.append(" ");
    status_value.append(status_label(result.status));

    let mut formula = String::from_str("`");
    formula.append(result.computation.formula.as_str());
    formula.append("`");
    let mut outcome = String::from_str("`");
    outcome.append(result.computation.result.as_str());
    outcome.append("`");

    let mut fields: Vec<DiscordField> = Vec::new();
    fields.push(discord_field("Status", status_value, true));
    fields.push(discord_field("Invariant ID", result.id.clone(), true));
    fields.push(discord_field("Formula", formula, false));
    fields.push(discord_field("Result", outcome, false));
    let ghost base = field_views(fields@);
    match &result.violation_reason {
        Some(reason) => {
            fields.push(discord_field("Violation Reason", reason.clone(), false));
        },
        None => {},
    }
    let ghost with_reason = field_views(fields@);
    if result.computation.inputs.len() > 0 {
        let listing = render_inputs(&result.computation.inputs);
        fields.push(discord_field("Computation Inputs", listing, false));
    }
    proof {
        let v = result@;
        assert(base =~= seq![
            ("Status"@, emoji_of(v.status) + " "@ + label_of(v.status), true),
            ("Invariant ID"@, v.id, true),
            ("Formula"@, "`"@ + v.formula + "`"@, false),
            ("Result"@, "`"@ + v.result + "`"@, false),
        ]);
        assert(with_reason =~= match v.reason {
            Some(m) => base.push(("Violation Reason"@, m, false)),
            None => base,
        });
        assert(field_views(fields@) =~= embed_fields(v));
    }

    let mut title = String::from_str(emoji);
    title.append(" ");
    title.append(result.name.as_str());
    let embed = DiscordEmbed {
        title,
        description: result.description.clone(),
        color: status_color(result.status),
        fields,
        timestamp: result.evaluated_at,
    };
    let content = if result.status == InvariantStatus::Violated {
        Some(String::from_str(VIOLATION_HEADING))
    } else {
        None
    };
    let mut embeds: Vec<DiscordEmbed> = Vec::new();
    embeds.push(embed);
    DiscordMessage { content, embeds }
}

} // verus!
