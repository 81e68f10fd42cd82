//! What the MIDI settings pane shows: the three section headers, and under the
//! open section its ports, CC mappings or settings, row by row from the top,
//! as many rows as fit.

use vstd::prelude::*;
use crate::midi_settings::{CcMapping, MidiSection, MidiSettingsPane};
use crate::text::{decimal, push_decimal, str_eq};

verus! {

/// How a line is drawn.
#[derive(Debug, Clone, Copy, PartialEq, Eq, Structural)]
pub enum LineStyle {
    /// The header of the open section.
    ActiveSection,
    /// The header of another section.
    Section,
    Dim,
    Normal,
    /// The row under the section's cursor.
    Highlight,
}

/// A line: its style, its text, and dimmed text after it.
pub struct MidiLine {
    pub style: LineStyle,
    pub text: String,
    pub suffix: String,
}

/// The MIDI state the pane shows.
pub struct MidiView {
    pub connected_port: Option<String>,
    pub port_names: Vec<String>,
    pub mappings: Vec<CcMapping>,
    /// The name of each mapping's target parameter.
    pub mapping_targets: Vec<String>,
    pub note_passthrough: bool,
    pub channel_filter: Option<u8>,
    pub live_input: Option<u32>,
    /// The name of the live input instrument, when it exists.
    pub live_input_name: Option<String>,
}

/// A line as plain values.
pub open spec fn line_view(l: Option<MidiLine>) -> Option<(LineStyle, Seq<char>, Seq<char>)> {
    match l {
        Some(m) => Some((m.style, m.text@, m.suffix@)),
        None => None,
    }
}

/// `s` padded with spaces on the right to `width` characters.
pub open spec fn pad_right(s: Seq<char>, width: nat) -> Seq<char> {
    if s.len() < width { s + Seq::new((width - s.len()) as nat, |_i: int| ' ') } else { s }
}

/// The header style of section `s` when `open` is open.
pub open spec fn header_style(s: MidiSection, open: MidiSection) -> LineStyle {
    if s == open { LineStyle::ActiveSection } else { LineStyle::Section }
}

/// A line without suffix.
pub open spec fn plain(style: LineStyle, text: Seq<char>) -> Option<(LineStyle, Seq<char>, Seq<char>)> {
    Some((style, text, Seq::empty()))
}

/// The lines of the port list.
pub open spec fn port_lines(p: MidiSettingsPane, v: MidiView) -> Seq<Option<(LineStyle, Seq<char>, Seq<char>)>> {
    if v.port_names@.len() == 0 {
        seq![plain(LineStyle::Dim, "  (no MIDI ports found)"@)]
    } else {
        Seq::new(
            v.port_names@.len(),
            |i: int|
                plain(
                    if i == p.port_cursor { LineStyle::Highlight } else { LineStyle::Normal },
                    (if (v.connected_port matches Some(c) && c@ == v.port_names@[i]@) {
                        " * "@
                    } else {
                        "   "@
                    }) + v.port_names@[i]@,
                ),
        )
    }
}

/// The text of a CC mapping with target name `target`.
pub open spec fn mapping_text(m: CcMapping, target: Seq<char>) -> Seq<char> {
    "  CC"@ + pad_right(decimal(m.cc_number as nat), 3) + " "@ + (match m.channel {
        Some(c) => "ch"@ + decimal((c + 1) as nat),
        None => "any"@,
    }) + " -> "@ + target
}

/// The lines of the mapping list.
pub open spec fn mapping_lines(p: MidiSettingsPane, v: MidiView) -> Seq<Option<(LineStyle, Seq<char>, Seq<char>)>> {
    if v.mappings@.len() == 0 {
        seq![plain(LineStyle::Dim, "  (no CC mappings)"@)]
    } else {
        Seq::new(
            v.mappings@.len(),
            |i: int|
                plain(
                    if i == p.mapping_cursor { LineStyle::Highlight } else { LineStyle::Normal },
                    mapping_text(v.mappings@[i], v.mapping_targets@[i]@),
                ),
        )
    }
}

/// The lines of the settings list.
pub open spec fn setting_lines(v: MidiView) -> Seq<Option<(LineStyle, Seq<char>, Seq<char>)>> {
    seq![
        plain(LineStyle::Normal, "  Note passthrough: "@ + (if v.note_passthrough { "ON"@ } else { "OFF"@ })),
        plain(LineStyle::Normal, "  Channel filter: "@ + (match v.channel_filter {
            Some(c) => "Ch "@ + decimal((c + 1) as nat),
            None => "All"@,
        })),
        plain(LineStyle::Normal, "  Live input instrument: "@ + (match v.live_input {
            Some(id) => match v.live_input_name {
                Some(n) => n@,
                None => "#"@ + decimal(id as nat),
            },
            None => "(selected)"@,
        })),
    ]
}

/// Every row of the pane from the top, however many fit: each section header,
/// the open section's list under its header, and a blank row after the ports
/// and after the mappings.
pub open spec fn midi_layout(p: MidiSettingsPane, v: MidiView) -> Seq<Option<(LineStyle, Seq<char>, Seq<char>)>> {
    let ports_header = Some((
        header_style(MidiSection::Ports, p.section),
        " Ports "@,
        match v.connected_port {
            Some(c) => "  [Connected: "@ + c@ + "]"@,
            None => "  [Not connected]"@,
        },
    ));
    let cc_header = plain(
        header_style(MidiSection::CcMappings, p.section),
        " CC Mappings ("@ + decimal(v.mappings@.len()) + ")"@,
    );
    let settings_header = plain(header_style(MidiSection::Settings, p.section), " Settings"@);
    seq![ports_header] + (if p.section == MidiSection::Ports { port_lines(p, v) } else { Seq::empty() })
        + seq![None, cc_header] + (if p.section == MidiSection::CcMappings {
        mapping_lines(p, v)
    } else {
        Seq::empty()
    }) + seq![None, settings_header] + (if p.section == MidiSection::Settings {
        setting_lines(v)
    } else {
        Seq::empty()
    })
}

/// The lines of `s` as plain values.
pub open spec fn views(s: Seq<Option<MidiLine>>) -> Seq<Option<(LineStyle, Seq<char>, Seq<char>)>> {
    s.map_values(|l: Option<MidiLine>| line_view(l))
}

/// Appends a line without suffix.
fn push_plain(out: &mut Vec<Option<MidiLine>>, style: LineStyle, text: String)
    ensures
        views(final(out)@) == views(old(out)@).push(plain(style, text@)),
{
    let suffix = String::new();
    out.push(Some(MidiLine { style, text, suffix }));
    assert(views(out@) =~= views(old(out)@).push(plain(style, text@)));
}

/// Appends a blank row.
fn push_blank(out: &mut Vec<Option<MidiLine>>)
    ensures
        views(final(out)@) == views(old(out)@).push(None),
{
    out.push(None);
    assert(views(out@) =~= views(old(out)@).push(None));
}

/// Appends `n` in a field three characters wide, left-aligned.
fn push_left3(s: &mut String, n: u64)
    ensures
        final(s)@ == old(s)@ + pad_right(decimal(n as nat), 3),
{
    let mut d = String::new();
    push_decimal(&mut d, n);
    let len = d.as_str().unicode_len();
    s.append(d.as_str());
    let ghost base = old(s)@ + decimal(n as nat);
    assert(s@ =~= base + Seq::new(0, |_i: int| ' '));
    let mut i = len;
    while i < 3
        invariant
            len == decimal(n as nat).len(),
            (len <= i <= 3) || i == len,
            s@ == base + Seq::new((i - len) as nat, |_i: int| ' '),
        decreases 3 - i,
    {
        proof {
            reveal_strlit(" ");
        }
        s.append(" ");
        i = i + 1;
        assert(s@ =~= base + Seq::new((i - len) as nat, |_i: int| ' '));
    }
    assert(s@ =~= old(s)@ + pad_right(decimal(n as nat), 3));
}

impl MidiSettingsPane {
    /// Appends the port list.
    fn push_port_lines(&self, out: &mut Vec<Option<MidiLine>>, v: &MidiView)
        ensures
            views(final(out)@) == views(old(out)@) + port_lines(*self, *v),
    {
        proof {
            reveal_strlit("  (no MIDI ports found)");
            reveal_strlit(" * ");
            reveal_strlit("   ");
        }
        let n = v.port_names.len();
        if n == 0 {
            push_plain(out, LineStyle::Dim, String::from_str("  (no MIDI ports found)"));
            assert(views(out@) =~= views(old(out)@) + port_lines(*self, *v));
            return;
        }
        let ghost start = views(out@);
        let mut i: usize = 0;
        while i < n
            invariant
                n == v.port_names@.len(),
                n > 0,
                i <= n,
                views(out@) == start + port_lines(*self, *v).subrange(0, i as int),
            decreases n - i,
        {
            let name = &v.port_names[i];
            let connected = match &v.connected_port {
                Some(c) => str_eq(c.as_str(), name.as_str()),
                None => false,
            };
            let mut text = String::from_str(if connected { " * " } else { "   " });
            text.append(name.as_str());
            let style = if i == self.port_cursor { LineStyle::Highlight } else { LineStyle::Normal };
            push_plain(out, style, text);
            i = i + 1;
            assert(views(out@) =~= start + port_lines(*self, *v).subrange(0, i as int));
        }
        assert(port_lines(*self, *v).subrange(0, n as int) =~= port_lines(*self, *v));
    }

    /// Appends the mapping list.
    fn push_mapping_lines(&self, out: &mut Vec<Option<MidiLine>>, v: &MidiView)
        requires
            v.mapping_targets@.len() == v.mappings@.len(),
        ensures
            views(final(out)@) == views(old(out)@) + mapping_lines(*self, *v),
    {
        proof {
            reveal_strlit("  (no CC mappings)");
            reveal_strlit("  CC");
            reveal_strlit(" ");
            reveal_strlit("ch");
            reveal_strlit("any");
            reveal_strlit(" -> ");
        }
        let n = v.mappings.len();
        if n == 0 {
            push_plain(out, LineStyle::Dim, String::from_str("  (no CC mappings)"));
            assert(views(out@) =~= views(old(out)@) + mapping_lines(*self, *v));
            return;
        }
        let ghost start = views(out@);
        let mut i: usize = 0;
        while i < n
            invariant
                n == v.mappings@.len(),
                v.mapping_targets@.len() == n,
                n > 0,
                i <= n,
                views(out@) == start + mapping_lines(*self, *v).subrange(0, i as int),
            decreases n - i,
        {
            let m = v.mappings[i];
            let mut text = String::from_str("  CC");
            push_left3(&mut text, m.cc_number as u64);
            text.append(" ");
            match m.channel {
                Some(c) => {
                    text.append("ch");
                    push_decimal(&mut text, c as u64 + 1);
                },
                None => text.append("any"),
            }
            text.append(" -> ");
            text.append(v.mapping_targets[i].as_str());
            assert(text@ =~= mapping_text(m, v.mapping_targets@[i as int]@));
            let style = if i == self.mapping_cursor { LineStyle::Highlight } else { LineStyle::Normal };
            push_plain(out, style, text);
            i = i + 1;
            assert(views(out@) =~= start + mapping_lines(*self, *v).subrange(0, i as int));
        }
        assert(mapping_lines(*self, *v).subrange(0, n as int) =~= mapping_lines(*self, *v));
    }

    /// Appends the settings list.
    fn push_setting_lines(&self, out: &mut Vec<Option<MidiLine>>, v: &MidiView)
        ensures
            views(final(out)@) == views(old(out)@) + setting_lines(*v),
    {
        proof {
            reveal_strlit("  Note passthrough: ");
            reveal_strlit("ON");
            reveal_strlit("OFF");
            reveal_strlit("  Channel filter: ");
            reveal_strlit("Ch ");
            reveal_strlit("All");
            reveal_strlit("  Live input instrument: ");
            reveal_strlit("#");
            reveal_strlit("(selected)");
        }
        let ghost start = views(out@);
        let mut a = String::from_str("  Note passthrough: ");
        a.append(if v.note_passthrough { "ON" } else { "OFF" });
        assert(a@ =~= "  Note passthrough: "@ + (if v.note_passthrough { "ON"@ } else { "OFF"@ }));
        push_plain(out, LineStyle::Normal, a);
        let mut b = String::from_str("  Channel filter: ");
        match v.channel_filter {
            Some(c) => {
                b.append("Ch ");
                push_decimal(&mut b, c as u64 + 1);
            },
            None => b.append("All"),
        }
        assert(b@ =~= "  Channel filter: "@ + (match v.channel_filter {
            Some(c) => "Ch "@ + decimal((c + 1) as nat),
            None => "All"@,
        }));
        push_plain(out, LineStyle::Normal, b);
        let mut c = String::from_str("  Live input instrument: ");
        match v.live_input {
            Some(id) => match &v.live_input_name {
                Some(n) => c.append(n.as_str()),
                None => {
                    c.append("#");
                    push_decimal(&mut c, id as u64);
                },
            },
            None => c.append("(selected)"),
        }
        assert(c@ =~= "  Live input instrument: "@ + (match v.live_input {
            Some(id) => match v.live_input_name {
                Some(n) => n@,
                None => "#"@ + decimal(id as nat),
            },
            None => "(selected)"@,
        }));
        push_plain(out, LineStyle::Normal, c);
        assert(views(out@) =~= start + setting_lines(*v));
    }

    /// The pane in an area `width` by `height` inside its border: nothing when
    /// it is smaller than 20 by 3, else the rows of `midi_layout` that fit.
    pub fn render(&self, v: &MidiView, width: u16, height: u16) -> (rows: Vec<Option<MidiLine>>)
        requires
            v.mapping_targets@.len() == v.mappings@.len(),
        ensures
            views(rows@) == if height < 3 || width < 20 {
                Seq::empty()
            } else if midi_layout(*self, *v).len() <= height {
                midi_layout(*self, *v)
            } else {
                midi_layout(*self, *v).subrange(0, height as int)
            },
    {
        let mut all: Vec<Option<MidiLine>> = Vec::new();
        assert(views(all@) =~= Seq::empty());
        if height < 3 || width < 20 {
            return all;
        }
        proof {
            reveal_strlit(" Ports ");
            reveal_strlit("  [Connected: ");
            reveal_strlit("]");
            reveal_strlit("  [Not connected]");
            reveal_strlit(" CC Mappings (");
            reveal_strlit(")");
            reveal_strlit(" Settings");
        }
        let suffix = match &v.connected_port {
            Some(c) => {
                let mut s = String::from_str("  [Connected: ");
                s.append(c.as_str());
                s.append("]");
                s
            },
            None => String::from_str("  [Not connected]"),
        };
        let style = if self.section == MidiSection::Ports { LineStyle::ActiveSection } else { LineStyle::Section };
        all.push(Some(MidiLine { style, text: String::from_str(" Ports "), suffix }));
        if self.section == MidiSection::Ports {
            self.push_port_lines(&mut all, v);
        }
        push_blank(&mut all);
        let mut cc = String::from_str(" CC Mappings (");
        push_decimal(&mut cc, v.mappings.len() as u64);
        cc.append(")");
        let cc_style = if self.section == MidiSection::CcMappings { LineStyle::ActiveSection } else { LineStyle::Section };
        push_plain(&mut all, cc_style, cc);
        if self.section == MidiSection::CcMappings {
            self.push_mapping_lines(&mut all, v);
        }
        push_blank(&mut all);
        let st_style = if self.section == MidiSection::Settings { LineStyle::ActiveSection } else { LineStyle::Section };
        push_plain(&mut all, st_style, String::from_str(" Settings"));
        if self.section == MidiSection::Settings {
            self.push_setting_lines(&mut all, v);
        }
        assert(views(all@) =~= midi_layout(*self, *v));
        all.truncate(height as usize);
        assert(views(all@) =~= if midi_layout(*self, *v).len() <= height {
            midi_layout(*self, *v)
        } else {
            midi_layout(*self, *v).subrange(0, height as int)
        });
        all
    }
}

} // verus!
