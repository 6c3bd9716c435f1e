use vstd::prelude::*;

use crate::keys::Keys;

verus! {

/// One stretch of the key table.
pub open spec fn key_table_00() -> Seq<(Seq<char>, Seq<Keys>)> {
    seq![
        ("\x00"@, seq![Keys::ControlAt]),
        ("\x01"@, seq![Keys::ControlA]),
        ("\x02"@, seq![Keys::ControlB]),
        ("\x03"@, seq![Keys::ControlC]),
        ("\x04"@, seq![Keys::ControlD]),
        ("\x05"@, seq![Keys::ControlE]),
        ("\x06"@, seq![Keys::ControlF]),
        ("\x07"@, seq![Keys::ControlG]),
        ("\x08"@, seq![Keys::ControlH]),
        ("\x09"@, seq![Keys::ControlI]),
        ("\x0a"@, seq![Keys::ControlJ]),
    ]
}

/// One stretch of the key table.
pub open spec fn key_table_01() -> Seq<(Seq<char>, Seq<Keys>)> {
    seq![
        ("\x0b"@, seq![Keys::ControlK]),
        ("\x0c"@, seq![Keys::ControlL]),
        ("\x0d"@, seq![Keys::ControlM]),
        ("\x0e"@, seq![Keys::ControlN]),
        ("\x0f"@, seq![Keys::ControlO]),
        ("\x10"@, seq![Keys::ControlP]),
        ("\x11"@, seq![Keys::ControlQ]),
        ("\x12"@, seq![Keys::ControlR]),
        ("\x13"@, seq![Keys::ControlS]),
        ("\x14"@, seq![Keys::ControlT]),
        ("\x15"@, seq![Keys::ControlU]),
    ]
}

/// One stretch of the key table.
pub open spec fn key_table_02() -> Seq<(Seq<char>, Seq<Keys>)> {
    seq![
        ("\x16"@, seq![Keys::ControlV]),
        ("\x17"@, seq![Keys::ControlW]),
        ("\x18"@, seq![Keys::ControlX]),
        ("\x19"@, seq![Keys::ControlY]),
        ("\x1a"@, seq![Keys::ControlZ]),
        ("\x1b"@, seq![Keys::Escape]),
        ("\x1c"@, seq![Keys::ControlBackslash]),
        ("\x1d"@, seq![Keys::ControlCloseBracket]),
        ("\x1e"@, seq![Keys::ControlCircumflex]),
        ("\x1f"@, seq![Keys::ControlUnderscore]),
        ("\x7f"@, seq![Keys::ControlH]),
    ]
}

/// One stretch of the key table.
pub open spec fn key_table_03() -> Seq<(Seq<char>, Seq<Keys>)> {
    seq![
        ("\x1b[1~"@, seq![Keys::Home]),
        ("\x1b[2~"@, seq![Keys::Insert]),
        ("\x1b[3~"@, seq![Keys::Delete]),
        ("\x1b[4~"@, seq![Keys::End]),
        ("\x1b[5~"@, seq![Keys::PageUp]),
        ("\x1b[6~"@, seq![Keys::PageDown]),
        ("\x1b[7~"@, seq![Keys::Home]),
        ("\x1b[8~"@, seq![Keys::End]),
        ("\x1b[Z"@, seq![Keys::BackTab]),
        ("\x1b\x09"@, seq![Keys::BackTab]),
        ("\x1b[~"@, seq![Keys::BackTab]),
    ]
}

/// One stretch of the key table.
pub open spec fn key_table_04() -> Seq<(Seq<char>, Seq<Keys>)> {
    seq![
        ("\x1bOP"@, seq![Keys::F1]),
        ("\x1bOQ"@, seq![Keys::F2]),
        ("\x1bOR"@, seq![Keys::F3]),
        ("\x1bOS"@, seq![Keys::F4]),
        ("\x1b[[A"@, seq![Keys::F1]),
        ("\x1b[[B"@, seq![Keys::F2]),
        ("\x1b[[C"@, seq![Keys::F3]),
        ("\x1b[[D"@, seq![Keys::F4]),
        ("\x1b[[E"@, seq![Keys::F5]),
        ("\x1b[11~"@, seq![Keys::F1]),
        ("\x1b[12~"@, seq![Keys::F2]),
    ]
}

/// One stretch of the key table.
pub open spec fn key_table_05() -> Seq<(Seq<char>, Seq<Keys>)> {
    seq![
        ("\x1b[13~"@, seq![Keys::F3]),
        ("\x1b[14~"@, seq![Keys::F4]),
        ("\x1b[15~"@, seq![Keys::F5]),
        ("\x1b[17~"@, seq![Keys::F6]),
        ("\x1b[18~"@, seq![Keys::F7]),
        ("\x1b[19~"@, seq![Keys::F8]),
        ("\x1b[20~"@, seq![Keys::F9]),
        ("\x1b[21~"@, seq![Keys::F10]),
        ("\x1b[23~"@, seq![Keys::F11]),
        ("\x1b[24~"@, seq![Keys::F12]),
        ("\x1b[25~"@, seq![Keys::F13]),
    ]
}

/// One stretch of the key table.
pub open spec fn key_table_06() -> Seq<(Seq<char>, Seq<Keys>)> {
    seq![
        ("\x1b[26~"@, seq![Keys::F14]),
        ("\x1b[28~"@, seq![Keys::F15]),
        ("\x1b[29~"@, seq![Keys::F16]),
        ("\x1b[31~"@, seq![Keys::F17]),
        ("\x1b[32~"@, seq![Keys::F18]),
        ("\x1b[33~"@, seq![Keys::F19]),
        ("\x1b[34~"@, seq![Keys::F20]),
        ("\x1b[1;2P"@, seq![Keys::F13]),
        ("\x1b[1;2Q"@, seq![Keys::F14]),
        ("\x1b[1;2S"@, seq![Keys::F16]),
        ("\x1b[15;2~"@, seq![Keys::F17]),
    ]
}

/// One stretch of the key table.
pub open spec fn key_table_07() -> Seq<(Seq<char>, Seq<Keys>)> {
    seq![
        ("\x1b[17;2~"@, seq![Keys::F18]),
        ("\x1b[18;2~"@, seq![Keys::F19]),
        ("\x1b[19;2~"@, seq![Keys::F20]),
        ("\x1b[20;2~"@, seq![Keys::F21]),
        ("\x1b[21;2~"@, seq![Keys::F22]),
        ("\x1b[23;2~"@, seq![Keys::F23]),
        ("\x1b[24;2~"@, seq![Keys::F24]),
        ("\x1b[27;2;13~"@, seq![Keys::ControlM]),
        ("\x1b[27;5;13~"@, seq![Keys::ControlM]),
        ("\x1b[27;6;13~"@, seq![Keys::ControlM]),
        ("\x1b[1;5P"@, seq![Keys::ControlF1]),
    ]
}

/// One stretch of the key table.
pub open spec fn key_table_08() -> Seq<(Seq<char>, Seq<Keys>)> {
    seq![
        ("\x1b[1;5Q"@, seq![Keys::ControlF2]),
        ("\x1b[1;5S"@, seq![Keys::ControlF4]),
        ("\x1b[15;5~"@, seq![Keys::ControlF5]),
        ("\x1b[17;5~"@, seq![Keys::ControlF6]),
        ("\x1b[18;5~"@, seq![Keys::ControlF7]),
        ("\x1b[19;5~"@, seq![Keys::ControlF8]),
        ("\x1b[20;5~"@, seq![Keys::ControlF9]),
        ("\x1b[21;5~"@, seq![Keys::ControlF10]),
        ("\x1b[23;5~"@, seq![Keys::ControlF11]),
        ("\x1b[24;5~"@, seq![Keys::ControlF12]),
        ("\x1b[1;6P"@, seq![Keys::ControlF13]),
    ]
}

/// One stretch of the key table.
pub open spec fn key_table_09() -> Seq<(Seq<char>, Seq<Keys>)> {
    seq![
        ("\x1b[1;6Q"@, seq![Keys::ControlF14]),
        ("\x1b[1;6S"@, seq![Keys::ControlF16]),
        ("\x1b[15;6~"@, seq![Keys::ControlF17]),
        ("\x1b[17;6~"@, seq![Keys::ControlF18]),
        ("\x1b[18;6~"@, seq![Keys::ControlF19]),
        ("\x1b[19;6~"@, seq![Keys::ControlF20]),
        ("\x1b[20;6~"@, seq![Keys::ControlF21]),
        ("\x1b[21;6~"@, seq![Keys::ControlF22]),
        ("\x1b[23;6~"@, seq![Keys::ControlF23]),
        ("\x1b[24;6~"@, seq![Keys::ControlF24]),
        ("\x1b[62~"@, seq![Keys::ScrollUp]),
    ]
}

/// One stretch of the key table.
pub open spec fn key_table_10() -> Seq<(Seq<char>, Seq<Keys>)> {
    seq![
        ("\x1b[63~"@, seq![Keys::ScrollDown]),
        ("\x1b[200~"@, seq![Keys::BracketedPaste]),
        ("\x1b[E"@, seq![Keys::Ignore]),
        ("\x1b[G"@, seq![Keys::Ignore]),
        ("\x1b[3;2~"@, seq![Keys::ShiftDelete]),
        ("\x1b[5;2~"@, seq![Keys::ShiftPageUp]),
        ("\x1b[6;2~"@, seq![Keys::ShiftPageDown]),
        ("\x1b[2;3~"@, seq![Keys::Escape, Keys::Insert]),
        ("\x1b[3;3~"@, seq![Keys::Escape, Keys::Delete]),
        ("\x1b[5;3~"@, seq![Keys::Escape, Keys::PageUp]),
        ("\x1b[6;3~"@, seq![Keys::Escape, Keys::PageDown]),
    ]
}

/// One stretch of the key table.
pub open spec fn key_table_11() -> Seq<(Seq<char>, Seq<Keys>)> {
    seq![
        ("\x1b[2;4~"@, seq![Keys::Escape, Keys::ShiftInsert]),
        ("\x1b[3;4~"@, seq![Keys::Escape, Keys::ShiftDelete]),
        ("\x1b[5;4~"@, seq![Keys::Escape, Keys::ShiftPageUp]),
        ("\x1b[6;4~"@, seq![Keys::Escape, Keys::ShiftPageDown]),
        ("\x1b[3;5~"@, seq![Keys::ControlDelete]),
        ("\x1b[5;5~"@, seq![Keys::ControlPageUp]),
        ("\x1b[6;5~"@, seq![Keys::ControlPageDown]),
        ("\x1b[3;6~"@, seq![Keys::ControlShiftDelete]),
        ("\x1b[5;6~"@, seq![Keys::ControlShiftPageUp]),
        ("\x1b[6;6~"@, seq![Keys::ControlShiftPageDown]),
        ("\x1b[2;7~"@, seq![Keys::Escape, Keys::ControlInsert]),
    ]
}

/// One stretch of the key table.
pub open spec fn key_table_12() -> Seq<(Seq<char>, Seq<Keys>)> {
    seq![
        ("\x1b[5;7~"@, seq![Keys::Escape, Keys::ControlPageDown]),
        ("\x1b[6;7~"@, seq![Keys::Escape, Keys::ControlPageDown]),
        ("\x1b[2;8~"@, seq![Keys::Escape, Keys::ControlShiftInsert]),
        ("\x1b[5;8~"@, seq![Keys::Escape, Keys::ControlShiftPageDown]),
        ("\x1b[6;8~"@, seq![Keys::Escape, Keys::ControlShiftPageDown]),
        ("\x1b[A"@, seq![Keys::Up]),
        ("\x1b[B"@, seq![Keys::Down]),
        ("\x1b[C"@, seq![Keys::Right]),
        ("\x1b[D"@, seq![Keys::Left]),
        ("\x1b[H"@, seq![Keys::Home]),
        ("\x1b[F"@, seq![Keys::End]),
    ]
}

/// One stretch of the key table.
pub open spec fn key_table_13() -> Seq<(Seq<char>, Seq<Keys>)> {
    seq![
        ("\x1bOA"@, seq![Keys::Up]),
        ("\x1bOB"@, seq![Keys::Down]),
        ("\x1bOC"@, seq![Keys::Right]),
        ("\x1bOD"@, seq![Keys::Left]),
        ("\x1bOF"@, seq![Keys::End]),
        ("\x1bOH"@, seq![Keys::Home]),
        ("\x1b[1;2A"@, seq![Keys::ShiftUp]),
        ("\x1b[1;2B"@, seq![Keys::ShiftDown]),
        ("\x1b[1;2C"@, seq![Keys::ShiftRight]),
        ("\x1b[1;2D"@, seq![Keys::ShiftLeft]),
        ("\x1b[1;2F"@, seq![Keys::ShiftEnd]),
    ]
}

/// One stretch of the key table.
pub open spec fn key_table_14() -> Seq<(Seq<char>, Seq<Keys>)> {
    seq![
        ("\x1b[1;2H"@, seq![Keys::ShiftHome]),
        ("\x1b[1;3A"@, seq![Keys::Escape, Keys::Up]),
        ("\x1b[1;3B"@, seq![Keys::Escape, Keys::Down]),
        ("\x1b[1;3C"@, seq![Keys::Escape, Keys::Right]),
        ("\x1b[1;3D"@, seq![Keys::Escape, Keys::Left]),
        ("\x1b[1;3F"@, seq![Keys::Escape, Keys::End]),
        ("\x1b[1;3H"@, seq![Keys::Escape, Keys::Home]),
        ("\x1b[1;4A"@, seq![Keys::Escape, Keys::ShiftDown]),
        ("\x1b[1;4B"@, seq![Keys::Escape, Keys::ShiftUp]),
        ("\x1b[1;4C"@, seq![Keys::Escape, Keys::ShiftRight]),
        ("\x1b[1;4D"@, seq![Keys::Escape, Keys::ShiftLeft]),
    ]
}

/// One stretch of the key table.
pub open spec fn key_table_15() -> Seq<(Seq<char>, Seq<Keys>)> {
    seq![
        ("\x1b[1;4F"@, seq![Keys::Escape, Keys::ShiftEnd]),
        ("\x1b[1;4H"@, seq![Keys::Escape, Keys::ShiftHome]),
        ("\x1b[1;5A"@, seq![Keys::ControlUp]),
        ("\x1b[1;5B"@, seq![Keys::ControlDown]),
        ("\x1b[1;5C"@, seq![Keys::ControlRight]),
        ("\x1b[1;5D"@, seq![Keys::ControlLeft]),
        ("\x1b[1;5F"@, seq![Keys::ControlEnd]),
        ("\x1b[1;5H"@, seq![Keys::ControlHome]),
        ("\x1b[5A"@, seq![Keys::ControlUp]),
        ("\x1b[5B"@, seq![Keys::ControlDown]),
        ("\x1b[5C"@, seq![Keys::ControlRight]),
    ]
}

/// One stretch of the key table.
pub open spec fn key_table_16() -> Seq<(Seq<char>, Seq<Keys>)> {
    seq![
        ("\x1b[5D"@, seq![Keys::ControlLeft]),
        ("\x1bOc"@, seq![Keys::ControlRight]),
        ("\x1bOd"@, seq![Keys::ControlLeft]),
        ("\x1b[1;6A"@, seq![Keys::ControlShiftDown]),
        ("\x1b[1;6B"@, seq![Keys::ControlShiftUp]),
        ("\x1b[1;6C"@, seq![Keys::ControlShiftRight]),
        ("\x1b[1;6D"@, seq![Keys::ControlShiftLeft]),
        ("\x1b[1;6F"@, seq![Keys::ControlShiftEnd]),
        ("\x1b[1;6H"@, seq![Keys::ControlShiftHome]),
        ("\x1b[1;7A"@, seq![Keys::Escape, Keys::ControlDown]),
        ("\x1b[1;7B"@, seq![Keys::Escape, Keys::ControlUp]),
    ]
}

/// One stretch of the key table.
pub open spec fn key_table_17() -> Seq<(Seq<char>, Seq<Keys>)> {
    seq![
        ("\x1b[1;7C"@, seq![Keys::Escape, Keys::ControlRight]),
        ("\x1b[1;7D"@, seq![Keys::Escape, Keys::ControlLeft]),
        ("\x1b[1;7F"@, seq![Keys::Escape, Keys::ControlEnd]),
        ("\x1b[1;7H"@, seq![Keys::Escape, Keys::ControlHome]),
        ("\x1b[1;8A"@, seq![Keys::Escape, Keys::ControlShiftDown]),
        ("\x1b[1;8B"@, seq![Keys::Escape, Keys::ControlShiftUp]),
        ("\x1b[1;8C"@, seq![Keys::Escape, Keys::ControlShiftRight]),
        ("\x1b[1;8D"@, seq![Keys::Escape, Keys::ControlShiftLeft]),
        ("\x1b[1;8F"@, seq![Keys::Escape, Keys::ControlShiftEnd]),
        ("\x1b[1;8H"@, seq![Keys::Escape, Keys::ControlShiftHome]),
        ("\x1b[1;9A"@, seq![Keys::Escape, Keys::Up]),
    ]
}

/// One stretch of the key table.
pub open spec fn key_table_18() -> Seq<(Seq<char>, Seq<Keys>)> {
    seq![
        ("\x1b[1;9B"@, seq![Keys::Escape, Keys::Down]),
        ("\x1b[1;9C"@, seq![Keys::Escape, Keys::Right]),
        ("\x1b[1;9D"@, seq![Keys::Escape, Keys::Left]),
        ("\x1b[1;5p"@, seq![Keys::Control0]),
        ("\x1b[1;5q"@, seq![Keys::Control1]),
        ("\x1b[1;5r"@, seq![Keys::Control2]),
        ("\x1b[1;5s"@, seq![Keys::Control3]),
        ("\x1b[1;5t"@, seq![Keys::Control4]),
        ("\x1b[1;5u"@, seq![Keys::Control5]),
        ("\x1b[1;5v"@, seq![Keys::Control6]),
        ("\x1b[1;5w"@, seq![Keys::Control7]),
    ]
}

/// One stretch of the key table.
pub open spec fn key_table_19() -> Seq<(Seq<char>, Seq<Keys>)> {
    seq![
        ("\x1b[1;5x"@, seq![Keys::Control8]),
        ("\x1b[1;5y"@, seq![Keys::Control9]),
        ("\x1b[1;6p"@, seq![Keys::ControlShift0]),
        ("\x1b[1;6q"@, seq![Keys::ControlShift1]),
        ("\x1b[1;6r"@, seq![Keys::ControlShift2]),
        ("\x1b[1;6s"@, seq![Keys::ControlShift3]),
        ("\x1b[1;6t"@, seq![Keys::ControlShift4]),
        ("\x1b[1;6u"@, seq![Keys::ControlShift5]),
        ("\x1b[1;6v"@, seq![Keys::ControlShift6]),
        ("\x1b[1;6w"@, seq![Keys::ControlShift7]),
        ("\x1b[1;6x"@, seq![Keys::ControlShift8]),
    ]
}

/// One stretch of the key table.
pub open spec fn key_table_20() -> Seq<(Seq<char>, Seq<Keys>)> {
    seq![
        ("\x1b[1;6y"@, seq![Keys::ControlShift9]),
        ("\x1b[1;7p"@, seq![Keys::Escape, Keys::Control0]),
        ("\x1b[1;7q"@, seq![Keys::Escape, Keys::Control1]),
        ("\x1b[1;7r"@, seq![Keys::Escape, Keys::Control2]),
        ("\x1b[1;7s"@, seq![Keys::Escape, Keys::Control3]),
        ("\x1b[1;7t"@, seq![Keys::Escape, Keys::Control4]),
        ("\x1b[1;7u"@, seq![Keys::Escape, Keys::Control5]),
        ("\x1b[1;7v"@, seq![Keys::Escape, Keys::Control6]),
        ("\x1b[1;7w"@, seq![Keys::Escape, Keys::Control7]),
        ("\x1b[1;7x"@, seq![Keys::Escape, Keys::Control8]),
        ("\x1b[1;7y"@, seq![Keys::Escape, Keys::Control9]),
    ]
}

/// One stretch of the key table.
pub open spec fn key_table_21() -> Seq<(Seq<char>, Seq<Keys>)> {
    seq![
        ("\x1b[1;8p"@, seq![Keys::Escape, Keys::ControlShift0]),
        ("\x1b[1;8q"@, seq![Keys::Escape, Keys::ControlShift1]),
        ("\x1b[1;8r"@, seq![Keys::Escape, Keys::ControlShift2]),
        ("\x1b[1;8s"@, seq![Keys::Escape, Keys::ControlShift3]),
        ("\x1b[1;8t"@, seq![Keys::Escape, Keys::ControlShift4]),
        ("\x1b[1;8u"@, seq![Keys::Escape, Keys::ControlShift5]),
        ("\x1b[1;8v"@, seq![Keys::Escape, Keys::ControlShift6]),
        ("\x1b[1;8w"@, seq![Keys::Escape, Keys::ControlShift7]),
        ("\x1b[1;8x"@, seq![Keys::Escape, Keys::ControlShift8]),
        ("\x1b[1;8y"@, seq![Keys::Escape, Keys::ControlShift9]),
    ]
}

/// The whole key table: byte sequences and the key symbols they decode to.
#[verifier::opaque]
pub open spec fn key_table() -> Seq<(Seq<char>, Seq<Keys>)> {
    key_table_00() + key_table_01() + key_table_02() + key_table_03() + key_table_04() + key_table_05() + key_table_06() + key_table_07() + key_table_08() + key_table_09() + key_table_10() + key_table_11() + key_table_12() + key_table_13() + key_table_14() + key_table_15() + key_table_16() + key_table_17() + key_table_18() + key_table_19() + key_table_20() + key_table_21()
}

#[verifier::rlimit(100)]
fn key_table_00_entries(t: &mut Vec<(&'static str, Vec<Keys>)>)
    ensures
        entry_views(final(t)@) == entry_views(old(t)@) + key_table_00(),
{
    let ghost before = t@;
    t.push(("\x00", keys_one(Keys::ControlAt)));
    t.push(("\x01", keys_one(Keys::ControlA)));
    t.push(("\x02", keys_one(Keys::ControlB)));
    t.push(("\x03", keys_one(Keys::ControlC)));
    t.push(("\x04", keys_one(Keys::ControlD)));
    t.push(("\x05", keys_one(Keys::ControlE)));
    t.push(("\x06", keys_one(Keys::ControlF)));
    t.push(("\x07", keys_one(Keys::ControlG)));
    t.push(("\x08", keys_one(Keys::ControlH)));
    t.push(("\x09", keys_one(Keys::ControlI)));
    t.push(("\x0a", keys_one(Keys::ControlJ)));
    proof {
        assert(entry_views(t@) =~= entry_views(before) + key_table_00());
    }
}

#[verifier::rlimit(100)]
fn key_table_01_entries(t: &mut Vec<(&'static str, Vec<Keys>)>)
    ensures
        entry_views(final(t)@) == entry_views(old(t)@) + key_table_01(),
{
    let ghost before = t@;
    t.push(("\x0b", keys_one(Keys::ControlK)));
    t.push(("\x0c", keys_one(Keys::ControlL)));
    t.push(("\x0d", keys_one(Keys::ControlM)));
    t.push(("\x0e", keys_one(Keys::ControlN)));
    t.push(("\x0f", keys_one(Keys::ControlO)));
    t.push(("\x10", keys_one(Keys::ControlP)));
    t.push(("\x11", keys_one(Keys::ControlQ)));
    t.push(("\x12", keys_one(Keys::ControlR)));
    t.push(("\x13", keys_one(Keys::ControlS)));
    t.push(("\x14", keys_one(Keys::ControlT)));
    t.push(("\x15", keys_one(Keys::ControlU)));
    proof {
        assert(entry_views(t@) =~= entry_views(before) + key_table_01());
    }
}

#[verifier::rlimit(100)]
fn key_table_02_entries(t: &mut Vec<(&'static str, Vec<Keys>)>)
    ensures
        entry_views(final(t)@) == entry_views(old(t)@) + key_table_02(),
{
    let ghost before = t@;
    t.push(("\x16", keys_one(Keys::ControlV)));
    t.push(("\x17", keys_one(Keys::ControlW)));
    t.push(("\x18", keys_one(Keys::ControlX)));
    t.push(("\x19", keys_one(Keys::ControlY)));
    t.push(("\x1a", keys_one(Keys::ControlZ)));
    t.push(("\x1b", keys_one(Keys::Escape)));
    t.push(("\x1c", keys_one(Keys::ControlBackslash)));
    t.push(("\x1d", keys_one(Keys::ControlCloseBracket)));
    t.push(("\x1e", keys_one(Keys::ControlCircumflex)));
    t.push(("\x1f", keys_one(Keys::ControlUnderscore)));
    t.push(("\x7f", keys_one(Keys::ControlH)));
    proof {
        assert(entry_views(t@) =~= entry_views(before) + key_table_02());
    }
}

#[verifier::rlimit(100)]
fn key_table_03_entries(t: &mut Vec<(&'static str, Vec<Keys>)>)
    ensures
        entry_views(final(t)@) == entry_views(old(t)@) + key_table_03(),
{
    let ghost before = t@;
    t.push(("\x1b[1~", keys_one(Keys::Home)));
    t.push(("\x1b[2~", keys_one(Keys::Insert)));
    t.push(("\x1b[3~", keys_one(Keys::Delete)));
    t.push(("\x1b[4~", keys_one(Keys::End)));
    t.push(("\x1b[5~", keys_one(Keys::PageUp)));
    t.push(("\x1b[6~", keys_one(Keys::PageDown)));
    t.push(("\x1b[7~", keys_one(Keys::Home)));
    t.push(("\x1b[8~", keys_one(Keys::End)));
    t.push(("\x1b[Z", keys_one(Keys::BackTab)));
    t.push(("\x1b\x09", keys_one(Keys::BackTab)));
    t.push(("\x1b[~", keys_one(Keys::BackTab)));
    proof {
        assert(entry_views(t@) =~= entry_views(before) + key_table_03());
    }
}

#[verifier::rlimit(100)]
fn key_table_04_entries(t: &mut Vec<(&'static str, Vec<Keys>)>)
    ensures
        entry_views(final(t)@) == entry_views(old(t)@) + key_table_04(),
{
    let ghost before = t@;
    t.push(("\x1bOP", keys_one(Keys::F1)));
    t.push(("\x1bOQ", keys_one(Keys::F2)));
    t.push(("\x1bOR", keys_one(Keys::F3)));
    t.push(("\x1bOS", keys_one(Keys::F4)));
    t.push(("\x1b[[A", keys_one(Keys::F1)));
    t.push(("\x1b[[B", keys_one(Keys::F2)));
    t.push(("\x1b[[C", keys_one(Keys::F3)));
    t.push(("\x1b[[D", keys_one(Keys::F4)));
    t.push(("\x1b[[E", keys_one(Keys::F5)));
    t.push(("\x1b[11~", keys_one(Keys::F1)));
    t.push(("\x1b[12~", keys_one(Keys::F2)));
    proof {
        assert(entry_views(t@) =~= entry_views(before) + key_table_04());
    }
}

#[verifier::rlimit(100)]
fn key_table_05_entries(t: &mut Vec<(&'static str, Vec<Keys>)>)
    ensures
        entry_views(final(t)@) == entry_views(old(t)@) + key_table_05(),
{
    let ghost before = t@;
    t.push(("\x1b[13~", keys_one(Keys::F3)));
    t.push(("\x1b[14~", keys_one(Keys::F4)));
    t.push(("\x1b[15~", keys_one(Keys::F5)));
    t.push(("\x1b[17~", keys_one(Keys::F6)));
    t.push(("\x1b[18~", keys_one(Keys::F7)));
    t.push(("\x1b[19~", keys_one(Keys::F8)));
    t.push(("\x1b[20~", keys_one(Keys::F9)));
    t.push(("\x1b[21~", keys_one(Keys::F10)));
    t.push(("\x1b[23~", keys_one(Keys::F11)));
    t.push(("\x1b[24~", keys_one(Keys::F12)));
    t.push(("\x1b[25~", keys_one(Keys::F13)));
    proof {
        assert(entry_views(t@) =~= entry_views(before) + key_table_05());
    }
}

#[verifier::rlimit(100)]
fn key_table_06_entries(t: &mut Vec<(&'static str, Vec<Keys>)>)
    ensures
        entry_views(final(t)@) == entry_views(old(t)@) + key_table_06(),
{
    let ghost before = t@;
    t.push(("\x1b[26~", keys_one(Keys::F14)));
    t.push(("\x1b[28~", keys_one(Keys::F15)));
    t.push(("\x1b[29~", keys_one(Keys::F16)));
    t.push(("\x1b[31~", keys_one(Keys::F17)));
    t.push(("\x1b[32~", keys_one(Keys::F18)));
    t.push(("\x1b[33~", keys_one(Keys::F19)));
    t.push(("\x1b[34~", keys_one(Keys::F20)));
    t.push(("\x1b[1;2P", keys_one(Keys::F13)));
    t.push(("\x1b[1;2Q", keys_one(Keys::F14)));
    t.push(("\x1b[1;2S", keys_one(Keys::F16)));
    t.push(("\x1b[15;2~", keys_one(Keys::F17)));
    proof {
        assert(entry_views(t@) =~= entry_views(before) + key_table_06());
    }
}

#[verifier::rlimit(100)]
fn key_table_07_entries(t: &mut Vec<(&'static str, Vec<Keys>)>)
    ensures
        entry_views(final(t)@) == entry_views(old(t)@) + key_table_07(),
{
    let ghost before = t@;
    t.push(("\x1b[17;2~", keys_one(Keys::F18)));
    t.push(("\x1b[18;2~", keys_one(Keys::F19)));
    t.push(("\x1b[19;2~", keys_one(Keys::F20)));
    t.push(("\x1b[20;2~", keys_one(Keys::F21)));
    t.push(("\x1b[21;2~", keys_one(Keys::F22)));
    t.push(("\x1b[23;2~", keys_one(Keys::F23)));
    t.push(("\x1b[24;2~", keys_one(Keys::F24)));
    t.push(("\x1b[27;2;13~", keys_one(Keys::ControlM)));
    t.push(("\x1b[27;5;13~", keys_one(Keys::ControlM)));
    t.push(("\x1b[27;6;13~", keys_one(Keys::ControlM)));
    t.push(("\x1b[1;5P", keys_one(Keys::ControlF1)));
    proof {
        assert(entry_views(t@) =~= entry_views(before) + key_table_07());
    }
}

#[verifier::rlimit(100)]
fn key_table_08_entries(t: &mut Vec<(&'static str, Vec<Keys>)>)
    ensures
        entry_views(final(t)@) == entry_views(old(t)@) + key_table_08(),
{
    let ghost before = t@;
    t.push(("\x1b[1;5Q", keys_one(Keys::ControlF2)));
    t.push(("\x1b[1;5S", keys_one(Keys::ControlF4)));
    t.push(("\x1b[15;5~", keys_one(Keys::ControlF5)));
    t.push(("\x1b[17;5~", keys_one(Keys::ControlF6)));
    t.push(("\x1b[18;5~", keys_one(Keys::ControlF7)));
    t.push(("\x1b[19;5~", keys_one(Keys::ControlF8)));
    t.push(("\x1b[20;5~", keys_one(Keys::ControlF9)));
    t.push(("\x1b[21;5~", keys_one(Keys::ControlF10)));
    t.push(("\x1b[23;5~", keys_one(Keys::ControlF11)));
    t.push(("\x1b[24;5~", keys_one(Keys::ControlF12)));
    t.push(("\x1b[1;6P", keys_one(Keys::ControlF13)));
    proof {
        assert(entry_views(t@) =~= entry_views(before) + key_table_08());
    }
}

#[verifier::rlimit(100)]
fn key_table_09_entries(t: &mut Vec<(&'static str, Vec<Keys>)>)
    ensures
        entry_views(final(t)@) == entry_views(old(t)@) + key_table_09(),
{
    let ghost before = t@;
    t.push(("\x1b[1;6Q", keys_one(Keys::ControlF14)));
    t.push(("\x1b[1;6S", keys_one(Keys::ControlF16)));
    t.push(("\x1b[15;6~", keys_one(Keys::ControlF17)));
    t.push(("\x1b[17;6~", keys_one(Keys::ControlF18)));
    t.push(("\x1b[18;6~", keys_one(Keys::ControlF19)));
    t.push(("\x1b[19;6~", keys_one(Keys::ControlF20)));
    t.push(("\x1b[20;6~", keys_one(Keys::ControlF21)));
    t.push(("\x1b[21;6~", keys_one(Keys::ControlF22)));
    t.push(("\x1b[23;6~", keys_one(Keys::ControlF23)));
    t.push(("\x1b[24;6~", keys_one(Keys::ControlF24)));
    t.push(("\x1b[62~", keys_one(Keys::ScrollUp)));
    proof {
        assert(entry_views(t@) =~= entry_views(before) + key_table_09());
    }
}

#[verifier::rlimit(100)]
fn key_table_10_entries(t: &mut Vec<(&'static str, Vec<Keys>)>)
    ensures
        entry_views(final(t)@) == entry_views(old(t)@) + key_table_10(),
{
    let ghost before = t@;
    t.push(("\x1b[63~", keys_one(Keys::ScrollDown)));
    t.push(("\x1b[200~", keys_one(Keys::BracketedPaste)));
    t.push(("\x1b[E", keys_one(Keys::Ignore)));
    t.push(("\x1b[G", keys_one(Keys::Ignore)));
    t.push(("\x1b[3;2~", keys_one(Keys::ShiftDelete)));
    t.push(("\x1b[5;2~", keys_one(Keys::ShiftPageUp)));
    t.push(("\x1b[6;2~", keys_one(Keys::ShiftPageDown)));
    t.push(("\x1b[2;3~", keys_two(Keys::Escape, Keys::Insert)));
    t.push(("\x1b[3;3~", keys_two(Keys::Escape, Keys::Delete)));
    t.push(("\x1b[5;3~", keys_two(Keys::Escape, Keys::PageUp)));
    t.push(("\x1b[6;3~", keys_two(Keys::Escape, Keys::PageDown)));
    proof {
        assert(entry_views(t@) =~= entry_views(before) + key_table_10());
    }
}

#[verifier::rlimit(100)]
fn key_table_11_entries(t: &mut Vec<(&'static str, Vec<Keys>)>)
    ensures
        entry_views(final(t)@) == entry_views(old(t)@) + key_table_11(),
{
    let ghost before = t@;
    t.push(("\x1b[2;4~", keys_two(Keys::Escape, Keys::ShiftInsert)));
    t.push(("\x1b[3;4~", keys_two(Keys::Escape, Keys::ShiftDelete)));
    t.push(("\x1b[5;4~", keys_two(Keys::Escape, Keys::ShiftPageUp)));
    t.push(("\x1b[6;4~", keys_two(Keys::Escape, Keys::ShiftPageDown)));
    t.push(("\x1b[3;5~", keys_one(Keys::ControlDelete)));
    t.push(("\x1b[5;5~", keys_one(Keys::ControlPageUp)));
    t.push(("\x1b[6;5~", keys_one(Keys::ControlPageDown)));
    t.push(("\x1b[3;6~", keys_one(Keys::ControlShiftDelete)));
    t.push(("\x1b[5;6~", keys_one(Keys::ControlShiftPageUp)));
    t.push(("\x1b[6;6~", keys_one(Keys::ControlShiftPageDown)));
    t.push(("\x1b[2;7~", keys_two(Keys::Escape, Keys::ControlInsert)));
    proof {
        assert(entry_views(t@) =~= entry_views(before) + key_table_11());
    }
}

#[verifier::rlimit(100)]
fn key_table_12_entries(t: &mut Vec<(&'static str, Vec<Keys>)>)
    ensures
        entry_views(final(t)@) == entry_views(old(t)@) + key_table_12(),
{
    let ghost before = t@;
    t.push(("\x1b[5;7~", keys_two(Keys::Escape, Keys::ControlPageDown)));
    t.push(("\x1b[6;7~", keys_two(Keys::Escape, Keys::ControlPageDown)));
    t.push(("\x1b[2;8~", keys_two(Keys::Escape, Keys::ControlShiftInsert)));
    t.push(("\x1b[5;8~", keys_two(Keys::Escape, Keys::ControlShiftPageDown)));
    t.push(("\x1b[6;8~", keys_two(Keys::Escape, Keys::ControlShiftPageDown)));
    t.push(("\x1b[A", keys_one(Keys::Up)));
    t.push(("\x1b[B", keys_one(Keys::Down)));
    t.push(("\x1b[C", keys_one(Keys::Right)));
    t.push(("\x1b[D", keys_one(Keys::Left)));
    t.push(("\x1b[H", keys_one(Keys::Home)));
    t.push(("\x1b[F", keys_one(Keys::End)));
    proof {
        assert(entry_views(t@) =~= entry_views(before) + key_table_12());
    }
}

#[verifier::rlimit(100)]
fn key_table_13_entries(t: &mut Vec<(&'static str, Vec<Keys>)>)
    ensures
        entry_views(final(t)@) == entry_views(old(t)@) + key_table_13(),
{
    let ghost before = t@;
    t.push(("\x1bOA", keys_one(Keys::Up)));
    t.push(("\x1bOB", keys_one(Keys::Down)));
    t.push(("\x1bOC", keys_one(Keys::Right)));
    t.push(("\x1bOD", keys_one(Keys::Left)));
    t.push(("\x1bOF", keys_one(Keys::End)));
    t.push(("\x1bOH", keys_one(Keys::Home)));
    t.push(("\x1b[1;2A", keys_one(Keys::ShiftUp)));
    t.push(("\x1b[1;2B", keys_one(Keys::ShiftDown)));
    t.push(("\x1b[1;2C", keys_one(Keys::ShiftRight)));
    t.push(("\x1b[1;2D", keys_one(Keys::ShiftLeft)));
    t.push(("\x1b[1;2F", keys_one(Keys::ShiftEnd)));
    proof {
        assert(entry_views(t@) =~= entry_views(before) + key_table_13());
    }
}

#[verifier::rlimit(100)]
fn key_table_14_entries(t: &mut Vec<(&'static str, Vec<Keys>)>)
    ensures
        entry_views(final(t)@) == entry_views(old(t)@) + key_table_14(),
{
    let ghost before = t@;
    t.push(("\x1b[1;2H", keys_one(Keys::ShiftHome)));
    t.push(("\x1b[1;3A", keys_two(Keys::Escape, Keys::Up)));
    t.push(("\x1b[1;3B", keys_two(Keys::Escape, Keys::Down)));
    t.push(("\x1b[1;3C", keys_two(Keys::Escape, Keys::Right)));
    t.push(("\x1b[1;3D", keys_two(Keys::Escape, Keys::Left)));
    t.push(("\x1b[1;3F", keys_two(Keys::Escape, Keys::End)));
    t.push(("\x1b[1;3H", keys_two(Keys::Escape, Keys::Home)));
    t.push(("\x1b[1;4A", keys_two(Keys::Escape, Keys::ShiftDown)));
    t.push(("\x1b[1;4B", keys_two(Keys::Escape, Keys::ShiftUp)));
    t.push(("\x1b[1;4C", keys_two(Keys::Escape, Keys::ShiftRight)));
    t.push(("\x1b[1;4D", keys_two(Keys::Escape, Keys::ShiftLeft)));
    proof {
        assert(entry_views(t@) =~= entry_views(before) + key_table_14());
    }
}

#[verifier::rlimit(100)]
fn key_table_15_entries(t: &mut Vec<(&'static str, Vec<Keys>)>)
    ensures
        entry_views(final(t)@) == entry_views(old(t)@) + key_table_15(),
{
    let ghost before = t@;
    t.push(("\x1b[1;4F", keys_two(Keys::Escape, Keys::ShiftEnd)));
    t.push(("\x1b[1;4H", keys_two(Keys::Escape, Keys::ShiftHome)));
    t.push(("\x1b[1;5A", keys_one(Keys::ControlUp)));
    t.push(("\x1b[1;5B", keys_one(Keys::ControlDown)));
    t.push(("\x1b[1;5C", keys_one(Keys::ControlRight)));
    t.push(("\x1b[1;5D", keys_one(Keys::ControlLeft)));
    t.push(("\x1b[1;5F", keys_one(Keys::ControlEnd)));
    t.push(("\x1b[1;5H", keys_one(Keys::ControlHome)));
    t.push(("\x1b[5A", keys_one(Keys::ControlUp)));
    t.push(("\x1b[5B", keys_one(Keys::ControlDown)));
    t.push(("\x1b[5C", keys_one(Keys::ControlRight)));
    proof {
        assert(entry_views(t@) =~= entry_views(before) + key_table_15());
    }
}

#[verifier::rlimit(100)]
fn key_table_16_entries(t: &mut Vec<(&'static str, Vec<Keys>)>)
    ensures
        entry_views(final(t)@) == entry_views(old(t)@) + key_table_16(),
{
    let ghost before = t@;
    t.push(("\x1b[5D", keys_one(Keys::ControlLeft)));
    t.push(("\x1bOc", keys_one(Keys::ControlRight)));
    t.push(("\x1bOd", keys_one(Keys::ControlLeft)));
    t.push(("\x1b[1;6A", keys_one(Keys::ControlShiftDown)));
    t.push(("\x1b[1;6B", keys_one(Keys::ControlShiftUp)));
    t.push(("\x1b[1;6C", keys_one(Keys::ControlShiftRight)));
    t.push(("\x1b[1;6D", keys_one(Keys::ControlShiftLeft)));
    t.push(("\x1b[1;6F", keys_one(Keys::ControlShiftEnd)));
    t.push(("\x1b[1;6H", keys_one(Keys::ControlShiftHome)));
    t.push(("\x1b[1;7A", keys_two(Keys::Escape, Keys::ControlDown)));
    t.push(("\x1b[1;7B", keys_two(Keys::Escape, Keys::ControlUp)));
    proof {
        assert(entry_views(t@) =~= entry_views(before) + key_table_16());
    }
}

#[verifier::rlimit(100)]
fn key_table_17_entries(t: &mut Vec<(&'static str, Vec<Keys>)>)
    ensures
        entry_views(final(t)@) == entry_views(old(t)@) + key_table_17(),
{
    let ghost before = t@;
    t.push(("\x1b[1;7C", keys_two(Keys::Escape, Keys::ControlRight)));
    t.push(("\x1b[1;7D", keys_two(Keys::Escape, Keys::ControlLeft)));
    t.push(("\x1b[1;7F", keys_two(Keys::Escape, Keys::ControlEnd)));
    t.push(("\x1b[1;7H", keys_two(Keys::Escape, Keys::ControlHome)));
    t.push(("\x1b[1;8A", keys_two(Keys::Escape, Keys::ControlShiftDown)));
    t.push(("\x1b[1;8B", keys_two(Keys::Escape, Keys::ControlShiftUp)));
    t.push(("\x1b[1;8C", keys_two(Keys::Escape, Keys::ControlShiftRight)));
    t.push(("\x1b[1;8D", keys_two(Keys::Escape, Keys::ControlShiftLeft)));
    t.push(("\x1b[1;8F", keys_two(Keys::Escape, Keys::ControlShiftEnd)));
    t.push(("\x1b[1;8H", keys_two(Keys::Escape, Keys::ControlShiftHome)));
    t.push(("\x1b[1;9A", keys_two(Keys::Escape, Keys::Up)));
    proof {
        assert(entry_views(t@) =~= entry_views(before) + key_table_17());
    }
}

#[verifier::rlimit(100)]
fn key_table_18_entries(t: &mut Vec<(&'static str, Vec<Keys>)>)
    ensures
        entry_views(final(t)@) == entry_views(old(t)@) + key_table_18(),
{
    let ghost before = t@;
    t.push(("\x1b[1;9B", keys_two(Keys::Escape, Keys::Down)));
    t.push(("\x1b[1;9C", keys_two(Keys::Escape, Keys::Right)));
    t.push(("\x1b[1;9D", keys_two(Keys::Escape, Keys::Left)));
    t.push(("\x1b[1;5p", keys_one(Keys::Control0)));
    t.push(("\x1b[1;5q", keys_one(Keys::Control1)));
    t.push(("\x1b[1;5r", keys_one(Keys::Control2)));
    t.push(("\x1b[1;5s", keys_one(Keys::Control3)));
    t.push(("\x1b[1;5t", keys_one(Keys::Control4)));
    t.push(("\x1b[1;5u", keys_one(Keys::Control5)));
    t.push(("\x1b[1;5v", keys_one(Keys::Control6)));
    t.push(("\x1b[1;5w", keys_one(Keys::Control7)));
    proof {
        assert(entry_views(t@) =~= entry_views(before) + key_table_18());
    }
}

#[verifier::rlimit(100)]
fn key_table_19_entries(t: &mut Vec<(&'static str, Vec<Keys>)>)
    ensures
        entry_views(final(t)@) == entry_views(old(t)@) + key_table_19(),
{
    let ghost before = t@;
    t.push(("\x1b[1;5x", keys_one(Keys::Control8)));
    t.push(("\x1b[1;5y", keys_one(Keys::Control9)));
    t.push(("\x1b[1;6p", keys_one(Keys::ControlShift0)));
    t.push(("\x1b[1;6q", keys_one(Keys::ControlShift1)));
    t.push(("\x1b[1;6r", keys_one(Keys::ControlShift2)));
    t.push(("\x1b[1;6s", keys_one(Keys::ControlShift3)));
    t.push(("\x1b[1;6t", keys_one(Keys::ControlShift4)));
    t.push(("\x1b[1;6u", keys_one(Keys::ControlShift5)));
    t.push(("\x1b[1;6v", keys_one(Keys::ControlShift6)));
    t.push(("\x1b[1;6w", keys_one(Keys::ControlShift7)));
    t.push(("\x1b[1;6x", keys_one(Keys::ControlShift8)));
    proof {
        assert(entry_views(t@) =~= entry_views(before) + key_table_19());
    }
}

#[verifier::rlimit(100)]
fn key_table_20_entries(t: &mut Vec<(&'static str, Vec<Keys>)>)
    ensures
        entry_views(final(t)@) == entry_views(old(t)@) + key_table_20(),
{
    let ghost before = t@;
    t.push(("\x1b[1;6y", keys_one(Keys::ControlShift9)));
    t.push(("\x1b[1;7p", keys_two(Keys::Escape, Keys::Control0)));
    t.push(("\x1b[1;7q", keys_two(Keys::Escape, Keys::Control1)));
    t.push(("\x1b[1;7r", keys_two(Keys::Escape, Keys::Control2)));
    t.push(("\x1b[1;7s", keys_two(Keys::Escape, Keys::Control3)));
    t.push(("\x1b[1;7t", keys_two(Keys::Escape, Keys::Control4)));
    t.push(("\x1b[1;7u", keys_two(Keys::Escape, Keys::Control5)));
    t.push(("\x1b[1;7v", keys_two(Keys::Escape, Keys::Control6)));
    t.push(("\x1b[1;7w", keys_two(Keys::Escape, Keys::Control7)));
    t.push(("\x1b[1;7x", keys_two(Keys::Escape, Keys::Control8)));
    t.push(("\x1b[1;7y", keys_two(Keys::Escape, Keys::Control9)));
    proof {
        assert(entry_views(t@) =~= entry_views(before) + key_table_20());
    }
}

#[verifier::rlimit(100)]
fn key_table_21_entries(t: &mut Vec<(&'static str, Vec<Keys>)>)
    ensures
        entry_views(final(t)@) == entry_views(old(t)@) + key_table_21(),
{
    let ghost before = t@;
    t.push(("\x1b[1;8p", keys_two(Keys::Escape, Keys::ControlShift0)));
    t.push(("\x1b[1;8q", keys_two(Keys::Escape, Keys::ControlShift1)));
    t.push(("\x1b[1;8r", keys_two(Keys::Escape, Keys::ControlShift2)));
    t.push(("\x1b[1;8s", keys_two(Keys::Escape, Keys::ControlShift3)));
    t.push(("\x1b[1;8t", keys_two(Keys::Escape, Keys::ControlShift4)));
    t.push(("\x1b[1;8u", keys_two(Keys::Escape, Keys::ControlShift5)));
    t.push(("\x1b[1;8v", keys_two(Keys::Escape, Keys::ControlShift6)));
    t.push(("\x1b[1;8w", keys_two(Keys::Escape, Keys::ControlShift7)));
    t.push(("\x1b[1;8x", keys_two(Keys::Escape, Keys::ControlShift8)));
    t.push(("\x1b[1;8y", keys_two(Keys::Escape, Keys::ControlShift9)));
    proof {
        assert(entry_views(t@) =~= entry_views(before) + key_table_21());
    }
}

/// A one-key list.
fn keys_one(a: Keys) -> (r: Vec<Keys>)
    ensures
        r@ == seq![a],
{
    let mut v: Vec<Keys> = Vec::new();
    v.push(a);
    proof {
        assert(v@ =~= seq![a]);
    }
    v
}

/// A two-key list.
fn keys_two(a: Keys, b: Keys) -> (r: Vec<Keys>)
    ensures
        r@ == seq![a, b],
{
    let mut v: Vec<Keys> = Vec::new();
    v.push(a);
    v.push(b);
    proof {
        assert(v@ =~= seq![a, b]);
    }
    v
}

/// Builds the key table as runtime data.
pub fn key_table_entries() -> (r: Vec<(&'static str, Vec<Keys>)>)
    ensures
        entry_views(r@) == key_table(),
{
    reveal(key_table);
    let mut t: Vec<(&'static str, Vec<Keys>)> = Vec::new();
    proof {
        assert(entry_views(t@) =~= Seq::<(Seq<char>, Seq<Keys>)>::empty());
    }
    key_table_00_entries(&mut t);
    key_table_01_entries(&mut t);
    key_table_02_entries(&mut t);
    key_table_03_entries(&mut t);
    key_table_04_entries(&mut t);
    key_table_05_entries(&mut t);
    key_table_06_entries(&mut t);
    key_table_07_entries(&mut t);
    key_table_08_entries(&mut t);
    key_table_09_entries(&mut t);
    key_table_10_entries(&mut t);
    key_table_11_entries(&mut t);
    key_table_12_entries(&mut t);
    key_table_13_entries(&mut t);
    key_table_14_entries(&mut t);
    key_table_15_entries(&mut t);
    key_table_16_entries(&mut t);
    key_table_17_entries(&mut t);
    key_table_18_entries(&mut t);
    key_table_19_entries(&mut t);
    key_table_20_entries(&mut t);
    key_table_21_entries(&mut t);
    t
}

/// The views of the runtime key-table entries.
pub open spec fn entry_views(t: Seq<(&str, Vec<Keys>)>) -> Seq<(Seq<char>, Seq<Keys>)> {
    t.map_values(|e: (&str, Vec<Keys>)| (e.0@, e.1@))
}

/// Whether a character is an ASCII digit.
pub open spec fn is_digit(c: char) -> bool {
    48 <= c as int && c as int <= 57
}

/// Whether a character is an ASCII digit or a semicolon.
pub open spec fn is_digsemi(c: char) -> bool {
    is_digit(c) || c == ';'
}

/// The first position at or after `i` that is not a digit.
pub open spec fn digit_run_end(s: Seq<char>, i: int) -> int
    decreases s.len() - i,
{
    if i >= s.len() || i < 0 || !is_digit(s[i]) {
        i
    } else {
        digit_run_end(s, i + 1)
    }
}

/// The first position at or after `i` that is neither digit nor semicolon.
pub open spec fn digsemi_run_end(s: Seq<char>, i: int) -> int
    decreases s.len() - i,
{
    if i >= s.len() || i < 0 || !is_digsemi(s[i]) {
        i
    } else {
        digsemi_run_end(s, i + 1)
    }
}

/// A complete cursor-position report: escape, bracket, digits, one
/// semicolon, digits, and a final `R`.
pub open spec fn is_cpr_final(s: Seq<char>) -> bool {
    &&& s.len() >= 2
    &&& s[0] == '\u{1b}'
    &&& s[1] == '['
    &&& ({
        let a = digit_run_end(s, 2);
        &&& a > 2
        &&& a < s.len()
        &&& s[a] == ';'
        &&& ({
            let b = digit_run_end(s, a + 1);
            &&& b > a + 1
            &&& b == s.len() - 1
            &&& s[b] == 'R'
        })
    })
}

/// A partial control sequence that could still become a cursor-position
/// report: escape, bracket, then digits and semicolons only.
pub open spec fn is_cpr_partial(s: Seq<char>) -> bool {
    &&& s.len() >= 2
    &&& s[0] == '\u{1b}'
    &&& s[1] == '['
    &&& digsemi_run_end(s, 2) == s.len()
}

/// A complete mouse event: either the three-byte legacy form after `M`, or
/// parameters (optionally SGR-prefixed with `<`) ended by `m` or `M`.
pub open spec fn is_mouse_final(s: Seq<char>) -> bool {
    &&& s.len() >= 2
    &&& s[0] == '\u{1b}'
    &&& s[1] == '['
    &&& ({
        ||| (s.len() == 6 && s[2] == 'M' && s[3] != '\n' && s[4] != '\n' && s[5] != '\n')
        ||| ({
            let st = if s.len() > 2 && s[2] == '<' {
                3int
            } else {
                2int
            };
            let e = digsemi_run_end(s, st);
            &&& e > st
            &&& e == s.len() - 1
            &&& (s[e] == 'm' || s[e] == 'M')
        })
    })
}

/// A partial mouse event: parameters so far, an optional `<` prefix, or up
/// to two bytes after a legacy `M`.
pub open spec fn is_mouse_partial(s: Seq<char>) -> bool {
    &&& s.len() >= 2
    &&& s[0] == '\u{1b}'
    &&& s[1] == '['
    &&& ({
        ||| digsemi_run_end(s, 2) == s.len()
        ||| (s.len() > 2 && s[2] == '<' && digsemi_run_end(s, 3) == s.len())
        ||| (s.len() > 2 && s[2] == 'M' && s.len() <= 5 && (s.len() <= 3 || s[3] != '\n') && (
        s.len() <= 4 || s[4] != '\n'))
    })
}

/// Whether `p` is a strict prefix of `e`.
pub open spec fn strict_prefix(p: Seq<char>, e: Seq<char>) -> bool {
    p.len() < e.len() && e.subrange(0, p.len() as int) == p
}

/// The key symbols the table holds for an exact sequence, if any.
pub open spec fn table_lookup(t: Seq<(Seq<char>, Seq<Keys>)>, s: Seq<char>) -> Option<Seq<Keys>>
    decreases t.len(),
{
    if t.len() == 0 {
        None
    } else if t[0].0 == s {
        Some(t[0].1)
    } else {
        table_lookup(t.drop_first(), s)
    }
}

/// What a complete input sequence decodes to: a cursor-position report, a
/// mouse event, or a key-table entry.
#[verifier::opaque]
pub open spec fn full_match(s: Seq<char>) -> Option<Seq<Keys>> {
    if is_cpr_final(s) {
        Some(seq![Keys::CPRResponse])
    } else if is_mouse_final(s) {
        Some(seq![Keys::Vt100MouseEvent])
    } else {
        table_lookup(key_table(), s)
    }
}

/// Whether more input could still turn the sequence into a match: a longer
/// table entry starts with it, or it is a partial report or mouse event.
#[verifier::opaque]
pub open spec fn is_prefix_match(s: Seq<char>) -> bool {
    ||| is_cpr_partial(s)
    ||| is_mouse_partial(s)
    ||| exists|i: int|
        0 <= i < key_table().len() && strict_prefix(s, #[trigger] key_table()[i].0)
}

/// Whether one character is an ASCII digit.
fn is_digit_char(c: char) -> (r: bool)
    ensures
        r == is_digit(c),
{
    let v = c as u32;
    v >= 48 && v <= 57
}

/// Whether one character is an ASCII digit or semicolon.
fn is_digsemi_char(c: char) -> (r: bool)
    ensures
        r == is_digsemi(c),
{
    let v = c as u32;
    (v >= 48 && v <= 57) || c == ';'
}

/// Scans digits from a position.
fn digit_run_end_exec(v: &Vec<char>, i: usize) -> (r: usize)
    requires
        i <= v@.len(),
    ensures
        r == digit_run_end(v@, i as int),
        i <= r <= v@.len(),
{
    let mut j = i;
    while j < v.len() && is_digit_char(v[j])
        invariant
            i <= j <= v@.len(),
            digit_run_end(v@, i as int) == digit_run_end(v@, j as int),
        decreases v@.len() - j,
    {
        proof {
            assert(digit_run_end(v@, j as int) == digit_run_end(v@, j + 1));
        }
        j = j + 1;
    }
    j
}

/// Scans digits and semicolons from a position.
fn digsemi_run_end_exec(v: &Vec<char>, i: usize) -> (r: usize)
    requires
        i <= v@.len(),
    ensures
        r == digsemi_run_end(v@, i as int),
        i <= r <= v@.len(),
{
    let mut j = i;
    while j < v.len() && is_digsemi_char(v[j])
        invariant
            i <= j <= v@.len(),
            digsemi_run_end(v@, i as int) == digsemi_run_end(v@, j as int),
        decreases v@.len() - j,
    {
        proof {
            assert(digsemi_run_end(v@, j as int) == digsemi_run_end(v@, j + 1));
        }
        j = j + 1;
    }
    j
}

/// Recognizes a complete cursor-position report.
pub fn cpr_final_exec(v: &Vec<char>) -> (r: bool)
    ensures
        r == is_cpr_final(v@),
{
    if v.len() < 2 || v[0] != '\u{1b}' || v[1] != '[' {
        return false;
    }
    let a = digit_run_end_exec(v, 2);
    if !(a > 2 && a < v.len() && v[a] == ';') {
        return false;
    }
    let b = digit_run_end_exec(v, a + 1);
    b > a + 1 && b == v.len() - 1 && v[b] == 'R'
}

/// Recognizes a partial cursor-position report.
pub fn cpr_partial_exec(v: &Vec<char>) -> (r: bool)
    ensures
        r == is_cpr_partial(v@),
{
    if v.len() < 2 || v[0] != '\u{1b}' || v[1] != '[' {
        return false;
    }
    let e = digsemi_run_end_exec(v, 2);
    e == v.len()
}

/// Recognizes a complete mouse event.
pub fn mouse_final_exec(v: &Vec<char>) -> (r: bool)
    ensures
        r == is_mouse_final(v@),
{
    if v.len() < 2 || v[0] != '\u{1b}' || v[1] != '[' {
        return false;
    }
    if v.len() == 6 && v[2] == 'M' && v[3] != '\n' && v[4] != '\n' && v[5] != '\n' {
        return true;
    }
    let st: usize = if v.len() > 2 && v[2] == '<' {
        3
    } else {
        2
    };
    if st > v.len() {
        return false;
    }
    let e = digsemi_run_end_exec(v, st);
    e > st && e == v.len() - 1 && (v[e] == 'm' || v[e] == 'M')
}

/// Recognizes a partial mouse event.
pub fn mouse_partial_exec(v: &Vec<char>) -> (r: bool)
    ensures
        r == is_mouse_partial(v@),
{
    if v.len() < 2 || v[0] != '\u{1b}' || v[1] != '[' {
        return false;
    }
    let e = digsemi_run_end_exec(v, 2);
    if e == v.len() {
        return true;
    }
    if v.len() > 2 && v[2] == '<' {
        let e2 = digsemi_run_end_exec(v, 3);
        if e2 == v.len() {
            return true;
        }
    }
    v.len() > 2 && v[2] == 'M' && v.len() <= 5 && (v.len() <= 3 || v[3] != '\n') && (v.len() <= 4
        || v[4] != '\n')
}

/// Copies a key list.
fn copy_keys(v: &Vec<Keys>) -> (r: Vec<Keys>)
    ensures
        r@ == v@,
{
    let mut out: Vec<Keys> = Vec::new();
    let mut i: usize = 0;
    while i < v.len()
        invariant
            i <= v@.len(),
            out@ == v@.take(i as int),
        decreases v@.len() - i,
    {
        out.push(v[i]);
        proof {
            assert(v@.take(i + 1) =~= v@.take(i as int).push(v@[i as int]));
        }
        i = i + 1;
    }
    proof {
        assert(v@.take(v@.len() as int) =~= v@);
    }
    out
}

/// Whether a character vector equals a string slice.
fn chars_eq_str(v: &Vec<char>, s: &str) -> (r: bool)
    ensures
        r == (v@ == s@),
{
    let sv = crate::util::str_chars(s);
    if v.len() != sv.len() {
        proof {
            assert(v@ != s@);
        }
        return false;
    }
    let mut i: usize = 0;
    while i < v.len()
        invariant
            i <= v@.len(),
            v@.len() == sv@.len(),
            sv@ == s@,
            forall|j: int| 0 <= j < i ==> v@[j] == s@[j],
        decreases v@.len() - i,
    {
        if v[i] != sv[i] {
            return false;
        }
        i = i + 1;
    }
    proof {
        assert(v@ =~= s@);
    }
    true
}

/// Whether a character vector is a strict prefix of a string slice.
fn strict_prefix_of_str(v: &Vec<char>, s: &str) -> (r: bool)
    ensures
        r == strict_prefix(v@, s@),
{
    let sv = crate::util::str_chars(s);
    if v.len() >= sv.len() {
        return false;
    }
    let mut i: usize = 0;
    while i < v.len()
        invariant
            i <= v@.len(),
            v@.len() < sv@.len(),
            sv@ == s@,
            forall|j: int| 0 <= j < i ==> v@[j] == s@[j],
        decreases v@.len() - i,
    {
        if v[i] != sv[i] {
            proof {
                assert(s@.subrange(0, v@.len() as int)[i as int] == s@[i as int]);
            }
            return false;
        }
        i = i + 1;
    }
    proof {
        assert(s@.subrange(0, v@.len() as int) =~= v@);
    }
    true
}

proof fn lemma_table_first_hit(t: Seq<(Seq<char>, Seq<Keys>)>, s: Seq<char>, i: int)
    requires
        0 <= i <= t.len(),
        forall|j: int| 0 <= j < i ==> #[trigger] t[j].0 != s,
        i < t.len() ==> t[i].0 == s,
    ensures
        i < t.len() ==> table_lookup(t, s) == Some(t[i].1),
        i == t.len() ==> table_lookup(t, s) is None,
    decreases t.len(),
{
    if t.len() == 0 {
    } else if t[0].0 == s {
        assert(i == 0);
    } else {
        assert(forall|j: int| 0 <= j < i - 1 ==> #[trigger] t.drop_first()[j].0 != s);
        lemma_table_first_hit(t.drop_first(), s, i - 1);
    }
}

/// Looks an exact sequence up in the runtime key table.
pub fn table_lookup_exec(t: &Vec<(&'static str, Vec<Keys>)>, prefix: &Vec<char>) -> (r: Option<
    Vec<Keys>,
>)
    requires
        entry_views(t@) == key_table(),
    ensures
        match r {
            Some(ks) => table_lookup(key_table(), prefix@) == Some(ks@),
            None => table_lookup(key_table(), prefix@) is None,
        },
{
    let mut i: usize = 0;
    while i < t.len()
        invariant
            i <= t@.len(),
            entry_views(t@) == key_table(),
            forall|j: int| 0 <= j < i ==> #[trigger] entry_views(t@)[j].0 != prefix@,
        decreases t@.len() - i,
    {
        if chars_eq_str(prefix, t[i].0) {
            proof {
                assert(entry_views(t@)[i as int].0 == t@[i as int].0@);
                lemma_table_first_hit(entry_views(t@), prefix@, i as int);
            }
            return Some(copy_keys(&t[i].1));
        }
        proof {
            assert(entry_views(t@)[i as int].0 == t@[i as int].0@);
        }
        i = i + 1;
    }
    proof {
        lemma_table_first_hit(entry_views(t@), prefix@, t@.len() as int);
    }
    None
}

/// What a complete input sequence decodes to, over the runtime table.
pub fn full_match_exec(t: &Vec<(&'static str, Vec<Keys>)>, prefix: &Vec<char>) -> (r: Option<
    Vec<Keys>,
>)
    requires
        entry_views(t@) == key_table(),
    ensures
        match r {
            Some(ks) => full_match(prefix@) == Some(ks@),
            None => full_match(prefix@) is None,
        },
{
    reveal(full_match);
    if cpr_final_exec(prefix) {
        return Some(keys_one(Keys::CPRResponse));
    }
    if mouse_final_exec(prefix) {
        return Some(keys_one(Keys::Vt100MouseEvent));
    }
    table_lookup_exec(t, prefix)
}

/// Whether more input could still complete the sequence, over the runtime
/// table.
pub fn is_prefix_match_exec(t: &Vec<(&'static str, Vec<Keys>)>, prefix: &Vec<char>) -> (r: bool)
    requires
        entry_views(t@) == key_table(),
    ensures
        r == is_prefix_match(prefix@),
{
    reveal(is_prefix_match);
    if cpr_partial_exec(prefix) {
        return true;
    }
    if mouse_partial_exec(prefix) {
        return true;
    }
    let mut i: usize = 0;
    while i < t.len()
        invariant
            i <= t@.len(),
            entry_views(t@) == key_table(),
            forall|j: int| 0 <= j < i ==> !strict_prefix(prefix@, #[trigger] entry_views(t@)[j].0),
        decreases t@.len() - i,
    {
        if strict_prefix_of_str(prefix, t[i].0) {
            proof {
                reveal(is_prefix_match);
                assert(entry_views(t@)[i as int].0 == t@[i as int].0@);
                assert(strict_prefix(prefix@, key_table()[i as int].0));
                assert(is_prefix_match(prefix@));
            }
            return true;
        }
        proof {
            assert(entry_views(t@)[i as int].0 == t@[i as int].0@);
        }
        i = i + 1;
    }
    proof {
        reveal(is_prefix_match);
        assert(forall|j: int|
            0 <= j < key_table().len() ==> !strict_prefix(prefix@, #[trigger] key_table()[j].0));
        assert(!is_prefix_match(prefix@));
    }
    false
}

/// Every key-table entry decodes to at least one key symbol.
#[verifier::rlimit(100)]
pub proof fn lemma_table_values_nonempty()
    ensures
        forall|i: int|
            0 <= i < key_table().len() ==> (#[trigger] key_table()[i]).1.len() >= 1,
{
    reveal(key_table);
    assert(forall|i: int| 0 <= i < key_table_00().len() ==> (#[trigger] key_table_00()[i]).1.len() >= 1);
    assert(forall|i: int| 0 <= i < key_table_01().len() ==> (#[trigger] key_table_01()[i]).1.len() >= 1);
    assert(forall|i: int| 0 <= i < key_table_02().len() ==> (#[trigger] key_table_02()[i]).1.len() >= 1);
    assert(forall|i: int| 0 <= i < key_table_03().len() ==> (#[trigger] key_table_03()[i]).1.len() >= 1);
    assert(forall|i: int| 0 <= i < key_table_04().len() ==> (#[trigger] key_table_04()[i]).1.len() >= 1);
    assert(forall|i: int| 0 <= i < key_table_05().len() ==> (#[trigger] key_table_05()[i]).1.len() >= 1);
    assert(forall|i: int| 0 <= i < key_table_06().len() ==> (#[trigger] key_table_06()[i]).1.len() >= 1);
    assert(forall|i: int| 0 <= i < key_table_07().len() ==> (#[trigger] key_table_07()[i]).1.len() >= 1);
    assert(forall|i: int| 0 <= i < key_table_08().len() ==> (#[trigger] key_table_08()[i]).1.len() >= 1);
    assert(forall|i: int| 0 <= i < key_table_09().len() ==> (#[trigger] key_table_09()[i]).1.len() >= 1);
    assert(forall|i: int| 0 <= i < key_table_10().len() ==> (#[trigger] key_table_10()[i]).1.len() >= 1);
    assert(forall|i: int| 0 <= i < key_table_11().len() ==> (#[trigger] key_table_11()[i]).1.len() >= 1);
    assert(forall|i: int| 0 <= i < key_table_12().len() ==> (#[trigger] key_table_12()[i]).1.len() >= 1);
    assert(forall|i: int| 0 <= i < key_table_13().len() ==> (#[trigger] key_table_13()[i]).1.len() >= 1);
    assert(forall|i: int| 0 <= i < key_table_14().len() ==> (#[trigger] key_table_14()[i]).1.len() >= 1);
    assert(forall|i: int| 0 <= i < key_table_15().len() ==> (#[trigger] key_table_15()[i]).1.len() >= 1);
    assert(forall|i: int| 0 <= i < key_table_16().len() ==> (#[trigger] key_table_16()[i]).1.len() >= 1);
    assert(forall|i: int| 0 <= i < key_table_17().len() ==> (#[trigger] key_table_17()[i]).1.len() >= 1);
    assert(forall|i: int| 0 <= i < key_table_18().len() ==> (#[trigger] key_table_18()[i]).1.len() >= 1);
    assert(forall|i: int| 0 <= i < key_table_19().len() ==> (#[trigger] key_table_19()[i]).1.len() >= 1);
    assert(forall|i: int| 0 <= i < key_table_20().len() ==> (#[trigger] key_table_20()[i]).1.len() >= 1);
    assert(forall|i: int| 0 <= i < key_table_21().len() ==> (#[trigger] key_table_21()[i]).1.len() >= 1);
    assert forall|i: int| 0 <= i < key_table().len() implies (#[trigger] key_table()[i]).1.len()
        >= 1 by {
        let k = i / 11;
        let r = i % 11;
        assert(key_table()[i] == chunk_of(k)[r]) by {
            lemma_key_table_chunk(i);
        }
    }
}

/// The table stretch an index falls into.
pub open spec fn chunk_of(k: int) -> Seq<(Seq<char>, Seq<Keys>)> {
    if k == 0 { key_table_00() } else
    if k == 1 { key_table_01() } else
    if k == 2 { key_table_02() } else
    if k == 3 { key_table_03() } else
    if k == 4 { key_table_04() } else
    if k == 5 { key_table_05() } else
    if k == 6 { key_table_06() } else
    if k == 7 { key_table_07() } else
    if k == 8 { key_table_08() } else
    if k == 9 { key_table_09() } else
    if k == 10 { key_table_10() } else
    if k == 11 { key_table_11() } else
    if k == 12 { key_table_12() } else
    if k == 13 { key_table_13() } else
    if k == 14 { key_table_14() } else
    if k == 15 { key_table_15() } else
    if k == 16 { key_table_16() } else
    if k == 17 { key_table_17() } else
    if k == 18 { key_table_18() } else
    if k == 19 { key_table_19() } else
    if k == 20 { key_table_20() } else
    if k == 21 { key_table_21() } else
    { Seq::empty() }
}

/// Indexing the whole table lands in the right stretch.
#[verifier::rlimit(100)]
proof fn lemma_key_table_chunk(i: int)
    requires
        0 <= i < key_table().len(),
    ensures
        key_table()[i] == chunk_of(i / 11)[i % 11],
{
    reveal(key_table);
    assert(key_table().len() == 241);
}

/// A successful lookup answers with the key list of some entry.
proof fn lemma_lookup_is_entry(t: Seq<(Seq<char>, Seq<Keys>)>, s: Seq<char>)
    ensures
        match table_lookup(t, s) {
            Some(ks) => exists|j: int| 0 <= j < t.len() && (#[trigger] t[j]).1 == ks,
            None => true,
        },
    decreases t.len(),
{
    if t.len() == 0 {
    } else if t[0].0 == s {
        assert(t[0].1 == table_lookup(t, s).unwrap());
    } else {
        lemma_lookup_is_entry(t.drop_first(), s);
        if table_lookup(t, s) is Some {
            let ks = table_lookup(t, s).unwrap();
            let j = choose|j: int| 0 <= j < t.drop_first().len() && (#[trigger] t.drop_first()[j]).1 == ks;
            assert(t[j + 1].1 == ks);
        }
    }
}

/// A complete match always carries at least one key symbol.
pub proof fn lemma_full_match_nonempty(s: Seq<char>)
    ensures
        match full_match(s) {
            Some(ks) => ks.len() >= 1,
            None => true,
        },
{
    reveal(full_match);
    if is_cpr_final(s) {
    } else if is_mouse_final(s) {
    } else {
        lemma_lookup_is_entry(key_table(), s);
        lemma_table_values_nonempty();
        if table_lookup(key_table(), s) is Some {
            let ks = table_lookup(key_table(), s).unwrap();
            let j = choose|j: int|
                0 <= j < key_table().len() && (#[trigger] key_table()[j]).1 == ks;
            assert(key_table()[j].1.len() >= 1);
        }
    }
}

#[verifier::rlimit(100)]
proof fn lemma_paste_no_ext_00()
    ensures
        forall|i: int|
            0 <= i < key_table_00().len() ==> !strict_prefix(
                "\x1b[200~"@,
                (#[trigger] key_table_00()[i]).0,
            ),
{
    reveal_strlit("\x1b[200~");
    reveal_strlit("\x00");
    reveal_strlit("\x01");
    reveal_strlit("\x02");
    reveal_strlit("\x03");
    reveal_strlit("\x04");
    reveal_strlit("\x05");
    reveal_strlit("\x06");
    reveal_strlit("\x07");
    reveal_strlit("\x08");
    reveal_strlit("\x09");
    reveal_strlit("\x0a");
}

#[verifier::rlimit(100)]
proof fn lemma_paste_no_ext_01()
    ensures
        forall|i: int|
            0 <= i < key_table_01().len() ==> !strict_prefix(
                "\x1b[200~"@,
                (#[trigger] key_table_01()[i]).0,
            ),
{
    reveal_strlit("\x1b[200~");
    reveal_strlit("\x0b");
    reveal_strlit("\x0c");
    reveal_strlit("\x0d");
    reveal_strlit("\x0e");
    reveal_strlit("\x0f");
    reveal_strlit("\x10");
    reveal_strlit("\x11");
    reveal_strlit("\x12");
    reveal_strlit("\x13");
    reveal_strlit("\x14");
    reveal_strlit("\x15");
}

#[verifier::rlimit(100)]
proof fn lemma_paste_no_ext_02()
    ensures
        forall|i: int|
            0 <= i < key_table_02().len() ==> !strict_prefix(
                "\x1b[200~"@,
                (#[trigger] key_table_02()[i]).0,
            ),
{
    reveal_strlit("\x1b[200~");
    reveal_strlit("\x16");
    reveal_strlit("\x17");
    reveal_strlit("\x18");
    reveal_strlit("\x19");
    reveal_strlit("\x1a");
    reveal_strlit("\x1b");
    reveal_strlit("\x1c");
    reveal_strlit("\x1d");
    reveal_strlit("\x1e");
    reveal_strlit("\x1f");
    reveal_strlit("\x7f");
}

#[verifier::rlimit(100)]
proof fn lemma_paste_no_ext_03()
    ensures
        forall|i: int|
            0 <= i < key_table_03().len() ==> !strict_prefix(
                "\x1b[200~"@,
                (#[trigger] key_table_03()[i]).0,
            ),
{
    reveal_strlit("\x1b[200~");
    reveal_strlit("\x1b[1~");
    reveal_strlit("\x1b[2~");
    reveal_strlit("\x1b[3~");
    reveal_strlit("\x1b[4~");
    reveal_strlit("\x1b[5~");
    reveal_strlit("\x1b[6~");
    reveal_strlit("\x1b[7~");
    reveal_strlit("\x1b[8~");
    reveal_strlit("\x1b[Z");
    reveal_strlit("\x1b[~");
    reveal_strlit("\x1b\x09");
}

#[verifier::rlimit(100)]
proof fn lemma_paste_no_ext_04()
    ensures
        forall|i: int|
            0 <= i < key_table_04().len() ==> !strict_prefix(
                "\x1b[200~"@,
                (#[trigger] key_table_04()[i]).0,
            ),
{
    reveal_strlit("\x1b[200~");
    reveal_strlit("\x1bOP");
    reveal_strlit("\x1bOQ");
    reveal_strlit("\x1bOR");
    reveal_strlit("\x1bOS");
    reveal_strlit("\x1b[11~");
    reveal_strlit("\x1b[12~");
    reveal_strlit("\x1b[[A");
    reveal_strlit("\x1b[[B");
    reveal_strlit("\x1b[[C");
    reveal_strlit("\x1b[[D");
    reveal_strlit("\x1b[[E");
}

#[verifier::rlimit(100)]
proof fn lemma_paste_no_ext_05()
    ensures
        forall|i: int|
            0 <= i < key_table_05().len() ==> !strict_prefix(
                "\x1b[200~"@,
                (#[trigger] key_table_05()[i]).0,
            ),
{
    reveal_strlit("\x1b[200~");
    reveal_strlit("\x1b[13~");
    reveal_strlit("\x1b[14~");
    reveal_strlit("\x1b[15~");
    reveal_strlit("\x1b[17~");
    reveal_strlit("\x1b[18~");
    reveal_strlit("\x1b[19~");
    reveal_strlit("\x1b[20~");
    reveal_strlit("\x1b[21~");
    reveal_strlit("\x1b[23~");
    reveal_strlit("\x1b[24~");
    reveal_strlit("\x1b[25~");
}

#[verifier::rlimit(100)]
proof fn lemma_paste_no_ext_06()
    ensures
        forall|i: int|
            0 <= i < key_table_06().len() ==> !strict_prefix(
                "\x1b[200~"@,
                (#[trigger] key_table_06()[i]).0,
            ),
{
    reveal_strlit("\x1b[200~");
    reveal_strlit("\x1b[15;2~");
    reveal_strlit("\x1b[1;2P");
    reveal_strlit("\x1b[1;2Q");
    reveal_strlit("\x1b[1;2S");
    reveal_strlit("\x1b[26~");
    reveal_strlit("\x1b[28~");
    reveal_strlit("\x1b[29~");
    reveal_strlit("\x1b[31~");
    reveal_strlit("\x1b[32~");
    reveal_strlit("\x1b[33~");
    reveal_strlit("\x1b[34~");
    assert((key_table_06()[10].0).subrange(0, 6)[2] == (key_table_06()[10].0)[2]);
    assert(!strict_prefix("\x1b[200~"@, key_table_06()[10].0));
}

#[verifier::rlimit(100)]
proof fn lemma_paste_no_ext_07()
    ensures
        forall|i: int|
            0 <= i < key_table_07().len() ==> !strict_prefix(
                "\x1b[200~"@,
                (#[trigger] key_table_07()[i]).0,
            ),
{
    reveal_strlit("\x1b[200~");
    reveal_strlit("\x1b[17;2~");
    reveal_strlit("\x1b[18;2~");
    reveal_strlit("\x1b[19;2~");
    reveal_strlit("\x1b[1;5P");
    reveal_strlit("\x1b[20;2~");
    reveal_strlit("\x1b[21;2~");
    reveal_strlit("\x1b[23;2~");
    reveal_strlit("\x1b[24;2~");
    reveal_strlit("\x1b[27;2;13~");
    reveal_strlit("\x1b[27;5;13~");
    reveal_strlit("\x1b[27;6;13~");
    assert((key_table_07()[0].0).subrange(0, 6)[2] == (key_table_07()[0].0)[2]);
    assert(!strict_prefix("\x1b[200~"@, key_table_07()[0].0));
    assert((key_table_07()[1].0).subrange(0, 6)[2] == (key_table_07()[1].0)[2]);
    assert(!strict_prefix("\x1b[200~"@, key_table_07()[1].0));
    assert((key_table_07()[2].0).subrange(0, 6)[2] == (key_table_07()[2].0)[2]);
    assert(!strict_prefix("\x1b[200~"@, key_table_07()[2].0));
    assert((key_table_07()[3].0).subrange(0, 6)[4] == (key_table_07()[3].0)[4]);
    assert(!strict_prefix("\x1b[200~"@, key_table_07()[3].0));
    assert((key_table_07()[4].0).subrange(0, 6)[3] == (key_table_07()[4].0)[3]);
    assert(!strict_prefix("\x1b[200~"@, key_table_07()[4].0));
    assert((key_table_07()[5].0).subrange(0, 6)[3] == (key_table_07()[5].0)[3]);
    assert(!strict_prefix("\x1b[200~"@, key_table_07()[5].0));
    assert((key_table_07()[6].0).subrange(0, 6)[3] == (key_table_07()[6].0)[3]);
    assert(!strict_prefix("\x1b[200~"@, key_table_07()[6].0));
    assert((key_table_07()[7].0).subrange(0, 6)[3] == (key_table_07()[7].0)[3]);
    assert(!strict_prefix("\x1b[200~"@, key_table_07()[7].0));
    assert((key_table_07()[8].0).subrange(0, 6)[3] == (key_table_07()[8].0)[3]);
    assert(!strict_prefix("\x1b[200~"@, key_table_07()[8].0));
    assert((key_table_07()[9].0).subrange(0, 6)[3] == (key_table_07()[9].0)[3]);
    assert(!strict_prefix("\x1b[200~"@, key_table_07()[9].0));
}

#[verifier::rlimit(100)]
proof fn lemma_paste_no_ext_08()
    ensures
        forall|i: int|
            0 <= i < key_table_08().len() ==> !strict_prefix(
                "\x1b[200~"@,
                (#[trigger] key_table_08()[i]).0,
            ),
{
    reveal_strlit("\x1b[200~");
    reveal_strlit("\x1b[15;5~");
    reveal_strlit("\x1b[17;5~");
    reveal_strlit("\x1b[18;5~");
    reveal_strlit("\x1b[19;5~");
    reveal_strlit("\x1b[1;5Q");
    reveal_strlit("\x1b[1;5S");
    reveal_strlit("\x1b[1;6P");
    reveal_strlit("\x1b[20;5~");
    reveal_strlit("\x1b[21;5~");
    reveal_strlit("\x1b[23;5~");
    reveal_strlit("\x1b[24;5~");
    assert((key_table_08()[2].0).subrange(0, 6)[2] == (key_table_08()[2].0)[2]);
    assert(!strict_prefix("\x1b[200~"@, key_table_08()[2].0));
    assert((key_table_08()[3].0).subrange(0, 6)[2] == (key_table_08()[3].0)[2]);
    assert(!strict_prefix("\x1b[200~"@, key_table_08()[3].0));
    assert((key_table_08()[4].0).subrange(0, 6)[2] == (key_table_08()[4].0)[2]);
    assert(!strict_prefix("\x1b[200~"@, key_table_08()[4].0));
    assert((key_table_08()[5].0).subrange(0, 6)[2] == (key_table_08()[5].0)[2]);
    assert(!strict_prefix("\x1b[200~"@, key_table_08()[5].0));
    assert((key_table_08()[6].0).subrange(0, 6)[4] == (key_table_08()[6].0)[4]);
    assert(!strict_prefix("\x1b[200~"@, key_table_08()[6].0));
    assert((key_table_08()[7].0).subrange(0, 6)[3] == (key_table_08()[7].0)[3]);
    assert(!strict_prefix("\x1b[200~"@, key_table_08()[7].0));
    assert((key_table_08()[8].0).subrange(0, 6)[3] == (key_table_08()[8].0)[3]);
    assert(!strict_prefix("\x1b[200~"@, key_table_08()[8].0));
    assert((key_table_08()[9].0).subrange(0, 6)[3] == (key_table_08()[9].0)[3]);
    assert(!strict_prefix("\x1b[200~"@, key_table_08()[9].0));
}

#[verifier::rlimit(100)]
proof fn lemma_paste_no_ext_09()
    ensures
        forall|i: int|
            0 <= i < key_table_09().len() ==> !strict_prefix(
                "\x1b[200~"@,
                (#[trigger] key_table_09()[i]).0,
            ),
{
    reveal_strlit("\x1b[200~");
    reveal_strlit("\x1b[15;6~");
    reveal_strlit("\x1b[17;6~");
    reveal_strlit("\x1b[18;6~");
    reveal_strlit("\x1b[19;6~");
    reveal_strlit("\x1b[1;6Q");
    reveal_strlit("\x1b[1;6S");
    reveal_strlit("\x1b[20;6~");
    reveal_strlit("\x1b[21;6~");
    reveal_strlit("\x1b[23;6~");
    reveal_strlit("\x1b[24;6~");
    reveal_strlit("\x1b[62~");
    assert((key_table_09()[2].0).subrange(0, 6)[2] == (key_table_09()[2].0)[2]);
    assert(!strict_prefix("\x1b[200~"@, key_table_09()[2].0));
    assert((key_table_09()[3].0).subrange(0, 6)[2] == (key_table_09()[3].0)[2]);
    assert(!strict_prefix("\x1b[200~"@, key_table_09()[3].0));
    assert((key_table_09()[4].0).subrange(0, 6)[2] == (key_table_09()[4].0)[2]);
    assert(!strict_prefix("\x1b[200~"@, key_table_09()[4].0));
    assert((key_table_09()[5].0).subrange(0, 6)[2] == (key_table_09()[5].0)[2]);
    assert(!strict_prefix("\x1b[200~"@, key_table_09()[5].0));
    assert((key_table_09()[6].0).subrange(0, 6)[4] == (key_table_09()[6].0)[4]);
    assert(!strict_prefix("\x1b[200~"@, key_table_09()[6].0));
    assert((key_table_09()[7].0).subrange(0, 6)[3] == (key_table_09()[7].0)[3]);
    assert(!strict_prefix("\x1b[200~"@, key_table_09()[7].0));
    assert((key_table_09()[8].0).subrange(0, 6)[3] == (key_table_09()[8].0)[3]);
    assert(!strict_prefix("\x1b[200~"@, key_table_09()[8].0));
    assert((key_table_09()[9].0).subrange(0, 6)[3] == (key_table_09()[9].0)[3]);
    assert(!strict_prefix("\x1b[200~"@, key_table_09()[9].0));
}

#[verifier::rlimit(100)]
proof fn lemma_paste_no_ext_10()
    ensures
        forall|i: int|
            0 <= i < key_table_10().len() ==> !strict_prefix(
                "\x1b[200~"@,
                (#[trigger] key_table_10()[i]).0,
            ),
{
    reveal_strlit("\x1b[200~");
    reveal_strlit("\x1b[200~");
    reveal_strlit("\x1b[2;3~");
    reveal_strlit("\x1b[3;2~");
    reveal_strlit("\x1b[3;3~");
    reveal_strlit("\x1b[5;2~");
    reveal_strlit("\x1b[5;3~");
    reveal_strlit("\x1b[63~");
    reveal_strlit("\x1b[6;2~");
    reveal_strlit("\x1b[6;3~");
    reveal_strlit("\x1b[E");
    reveal_strlit("\x1b[G");
}

#[verifier::rlimit(100)]
proof fn lemma_paste_no_ext_11()
    ensures
        forall|i: int|
            0 <= i < key_table_11().len() ==> !strict_prefix(
                "\x1b[200~"@,
                (#[trigger] key_table_11()[i]).0,
            ),
{
    reveal_strlit("\x1b[200~");
    reveal_strlit("\x1b[2;4~");
    reveal_strlit("\x1b[2;7~");
    reveal_strlit("\x1b[3;4~");
    reveal_strlit("\x1b[3;5~");
    reveal_strlit("\x1b[3;6~");
    reveal_strlit("\x1b[5;4~");
    reveal_strlit("\x1b[5;5~");
    reveal_strlit("\x1b[5;6~");
    reveal_strlit("\x1b[6;4~");
    reveal_strlit("\x1b[6;5~");
    reveal_strlit("\x1b[6;6~");
}

#[verifier::rlimit(100)]
proof fn lemma_paste_no_ext_12()
    ensures
        forall|i: int|
            0 <= i < key_table_12().len() ==> !strict_prefix(
                "\x1b[200~"@,
                (#[trigger] key_table_12()[i]).0,
            ),
{
    reveal_strlit("\x1b[200~");
    reveal_strlit("\x1b[2;8~");
    reveal_strlit("\x1b[5;7~");
    reveal_strlit("\x1b[5;8~");
    reveal_strlit("\x1b[6;7~");
    reveal_strlit("\x1b[6;8~");
    reveal_strlit("\x1b[A");
    reveal_strlit("\x1b[B");
    reveal_strlit("\x1b[C");
    reveal_strlit("\x1b[D");
    reveal_strlit("\x1b[F");
    reveal_strlit("\x1b[H");
}

#[verifier::rlimit(100)]
proof fn lemma_paste_no_ext_13()
    ensures
        forall|i: int|
            0 <= i < key_table_13().len() ==> !strict_prefix(
                "\x1b[200~"@,
                (#[trigger] key_table_13()[i]).0,
            ),
{
    reveal_strlit("\x1b[200~");
    reveal_strlit("\x1bOA");
    reveal_strlit("\x1bOB");
    reveal_strlit("\x1bOC");
    reveal_strlit("\x1bOD");
    reveal_strlit("\x1bOF");
    reveal_strlit("\x1bOH");
    reveal_strlit("\x1b[1;2A");
    reveal_strlit("\x1b[1;2B");
    reveal_strlit("\x1b[1;2C");
    reveal_strlit("\x1b[1;2D");
    reveal_strlit("\x1b[1;2F");
}

#[verifier::rlimit(100)]
proof fn lemma_paste_no_ext_14()
    ensures
        forall|i: int|
            0 <= i < key_table_14().len() ==> !strict_prefix(
                "\x1b[200~"@,
                (#[trigger] key_table_14()[i]).0,
            ),
{
    reveal_strlit("\x1b[200~");
    reveal_strlit("\x1b[1;2H");
    reveal_strlit("\x1b[1;3A");
    reveal_strlit("\x1b[1;3B");
    reveal_strlit("\x1b[1;3C");
    reveal_strlit("\x1b[1;3D");
    reveal_strlit("\x1b[1;3F");
    reveal_strlit("\x1b[1;3H");
    reveal_strlit("\x1b[1;4A");
    reveal_strlit("\x1b[1;4B");
    reveal_strlit("\x1b[1;4C");
    reveal_strlit("\x1b[1;4D");
}

#[verifier::rlimit(100)]
proof fn lemma_paste_no_ext_15()
    ensures
        forall|i: int|
            0 <= i < key_table_15().len() ==> !strict_prefix(
                "\x1b[200~"@,
                (#[trigger] key_table_15()[i]).0,
            ),
{
    reveal_strlit("\x1b[200~");
    reveal_strlit("\x1b[1;4F");
    reveal_strlit("\x1b[1;4H");
    reveal_strlit("\x1b[1;5A");
    reveal_strlit("\x1b[1;5B");
    reveal_strlit("\x1b[1;5C");
    reveal_strlit("\x1b[1;5D");
    reveal_strlit("\x1b[1;5F");
    reveal_strlit("\x1b[1;5H");
    reveal_strlit("\x1b[5A");
    reveal_strlit("\x1b[5B");
    reveal_strlit("\x1b[5C");
}

#[verifier::rlimit(100)]
proof fn lemma_paste_no_ext_16()
    ensures
        forall|i: int|
            0 <= i < key_table_16().len() ==> !strict_prefix(
                "\x1b[200~"@,
                (#[trigger] key_table_16()[i]).0,
            ),
{
    reveal_strlit("\x1b[200~");
    reveal_strlit("\x1bOc");
    reveal_strlit("\x1bOd");
    reveal_strlit("\x1b[1;6A");
    reveal_strlit("\x1b[1;6B");
    reveal_strlit("\x1b[1;6C");
    reveal_strlit("\x1b[1;6D");
    reveal_strlit("\x1b[1;6F");
    reveal_strlit("\x1b[1;6H");
    reveal_strlit("\x1b[1;7A");
    reveal_strlit("\x1b[1;7B");
    reveal_strlit("\x1b[5D");
}

#[verifier::rlimit(100)]
proof fn lemma_paste_no_ext_17()
    ensures
        forall|i: int|
            0 <= i < key_table_17().len() ==> !strict_prefix(
                "\x1b[200~"@,
                (#[trigger] key_table_17()[i]).0,
            ),
{
    reveal_strlit("\x1b[200~");
    reveal_strlit("\x1b[1;7C");
    reveal_strlit("\x1b[1;7D");
    reveal_strlit("\x1b[1;7F");
    reveal_strlit("\x1b[1;7H");
    reveal_strlit("\x1b[1;8A");
    reveal_strlit("\x1b[1;8B");
    reveal_strlit("\x1b[1;8C");
    reveal_strlit("\x1b[1;8D");
    reveal_strlit("\x1b[1;8F");
    reveal_strlit("\x1b[1;8H");
    reveal_strlit("\x1b[1;9A");
}

#[verifier::rlimit(100)]
proof fn lemma_paste_no_ext_18()
    ensures
        forall|i: int|
            0 <= i < key_table_18().len() ==> !strict_prefix(
                "\x1b[200~"@,
                (#[trigger] key_table_18()[i]).0,
            ),
{
    reveal_strlit("\x1b[200~");
    reveal_strlit("\x1b[1;5p");
    reveal_strlit("\x1b[1;5q");
    reveal_strlit("\x1b[1;5r");
    reveal_strlit("\x1b[1;5s");
    reveal_strlit("\x1b[1;5t");
    reveal_strlit("\x1b[1;5u");
    reveal_strlit("\x1b[1;5v");
    reveal_strlit("\x1b[1;5w");
    reveal_strlit("\x1b[1;9B");
    reveal_strlit("\x1b[1;9C");
    reveal_strlit("\x1b[1;9D");
}

#[verifier::rlimit(100)]
proof fn lemma_paste_no_ext_19()
    ensures
        forall|i: int|
            0 <= i < key_table_19().len() ==> !strict_prefix(
                "\x1b[200~"@,
                (#[trigger] key_table_19()[i]).0,
            ),
{
    reveal_strlit("\x1b[200~");
    reveal_strlit("\x1b[1;5x");
    reveal_strlit("\x1b[1;5y");
    reveal_strlit("\x1b[1;6p");
    reveal_strlit("\x1b[1;6q");
    reveal_strlit("\x1b[1;6r");
    reveal_strlit("\x1b[1;6s");
    reveal_strlit("\x1b[1;6t");
    reveal_strlit("\x1b[1;6u");
    reveal_strlit("\x1b[1;6v");
    reveal_strlit("\x1b[1;6w");
    reveal_strlit("\x1b[1;6x");
}

#[verifier::rlimit(100)]
proof fn lemma_paste_no_ext_20()
    ensures
        forall|i: int|
            0 <= i < key_table_20().len() ==> !strict_prefix(
                "\x1b[200~"@,
                (#[trigger] key_table_20()[i]).0,
            ),
{
    reveal_strlit("\x1b[200~");
    reveal_strlit("\x1b[1;6y");
    reveal_strlit("\x1b[1;7p");
    reveal_strlit("\x1b[1;7q");
    reveal_strlit("\x1b[1;7r");
    reveal_strlit("\x1b[1;7s");
    reveal_strlit("\x1b[1;7t");
    reveal_strlit("\x1b[1;7u");
    reveal_strlit("\x1b[1;7v");
    reveal_strlit("\x1b[1;7w");
    reveal_strlit("\x1b[1;7x");
    reveal_strlit("\x1b[1;7y");
}

#[verifier::rlimit(100)]
proof fn lemma_paste_no_ext_21()
    ensures
        forall|i: int|
            0 <= i < key_table_21().len() ==> !strict_prefix(
                "\x1b[200~"@,
                (#[trigger] key_table_21()[i]).0,
            ),
{
    reveal_strlit("\x1b[200~");
    reveal_strlit("\x1b[1;8p");
    reveal_strlit("\x1b[1;8q");
    reveal_strlit("\x1b[1;8r");
    reveal_strlit("\x1b[1;8s");
    reveal_strlit("\x1b[1;8t");
    reveal_strlit("\x1b[1;8u");
    reveal_strlit("\x1b[1;8v");
    reveal_strlit("\x1b[1;8w");
    reveal_strlit("\x1b[1;8x");
    reveal_strlit("\x1b[1;8y");
}

#[verifier::rlimit(100)]
proof fn lemma_paste_no_eq_00()
    ensures
        forall|i: int| 0 <= i < 11 ==> (#[trigger] key_table_00()[i]).0 != "\x1b[200~"@,
{
    reveal_strlit("\x1b[200~");
    assert("\x1b[200~"@.len() == 6);
    reveal_strlit("\x00");
    reveal_strlit("\x01");
    reveal_strlit("\x02");
    reveal_strlit("\x03");
    reveal_strlit("\x04");
    reveal_strlit("\x05");
    reveal_strlit("\x06");
    reveal_strlit("\x07");
    reveal_strlit("\x08");
    reveal_strlit("\x09");
    reveal_strlit("\x0a");
    assert(key_table_00()[0].0 != "\x1b[200~"@);
    assert(key_table_00()[1].0 != "\x1b[200~"@);
    assert(key_table_00()[2].0 != "\x1b[200~"@);
    assert(key_table_00()[3].0 != "\x1b[200~"@);
    assert(key_table_00()[4].0 != "\x1b[200~"@);
    assert(key_table_00()[5].0 != "\x1b[200~"@);
    assert(key_table_00()[6].0 != "\x1b[200~"@);
    assert(key_table_00()[7].0 != "\x1b[200~"@);
    assert(key_table_00()[8].0 != "\x1b[200~"@);
    assert(key_table_00()[9].0 != "\x1b[200~"@);
    assert(key_table_00()[10].0 != "\x1b[200~"@);
}

#[verifier::rlimit(100)]
proof fn lemma_paste_no_eq_01()
    ensures
        forall|i: int| 0 <= i < 11 ==> (#[trigger] key_table_01()[i]).0 != "\x1b[200~"@,
{
    reveal_strlit("\x1b[200~");
    assert("\x1b[200~"@.len() == 6);
    reveal_strlit("\x0b");
    reveal_strlit("\x0c");
    reveal_strlit("\x0d");
    reveal_strlit("\x0e");
    reveal_strlit("\x0f");
    reveal_strlit("\x10");
    reveal_strlit("\x11");
    reveal_strlit("\x12");
    reveal_strlit("\x13");
    reveal_strlit("\x14");
    reveal_strlit("\x15");
    assert(key_table_01()[0].0 != "\x1b[200~"@);
    assert(key_table_01()[1].0 != "\x1b[200~"@);
    assert(key_table_01()[2].0 != "\x1b[200~"@);
    assert(key_table_01()[3].0 != "\x1b[200~"@);
    assert(key_table_01()[4].0 != "\x1b[200~"@);
    assert(key_table_01()[5].0 != "\x1b[200~"@);
    assert(key_table_01()[6].0 != "\x1b[200~"@);
    assert(key_table_01()[7].0 != "\x1b[200~"@);
    assert(key_table_01()[8].0 != "\x1b[200~"@);
    assert(key_table_01()[9].0 != "\x1b[200~"@);
    assert(key_table_01()[10].0 != "\x1b[200~"@);
}

#[verifier::rlimit(100)]
proof fn lemma_paste_no_eq_02()
    ensures
        forall|i: int| 0 <= i < 11 ==> (#[trigger] key_table_02()[i]).0 != "\x1b[200~"@,
{
    reveal_strlit("\x1b[200~");
    assert("\x1b[200~"@.len() == 6);
    reveal_strlit("\x16");
    reveal_strlit("\x17");
    reveal_strlit("\x18");
    reveal_strlit("\x19");
    reveal_strlit("\x1a");
    reveal_strlit("\x1b");
    reveal_strlit("\x1c");
    reveal_strlit("\x1d");
    reveal_strlit("\x1e");
    reveal_strlit("\x1f");
    reveal_strlit("\x7f");
    assert(key_table_02()[0].0 != "\x1b[200~"@);
    assert(key_table_02()[1].0 != "\x1b[200~"@);
    assert(key_table_02()[2].0 != "\x1b[200~"@);
    assert(key_table_02()[3].0 != "\x1b[200~"@);
    assert(key_table_02()[4].0 != "\x1b[200~"@);
    assert(key_table_02()[5].0 != "\x1b[200~"@);
    assert(key_table_02()[6].0 != "\x1b[200~"@);
    assert(key_table_02()[7].0 != "\x1b[200~"@);
    assert(key_table_02()[8].0 != "\x1b[200~"@);
    assert(key_table_02()[9].0 != "\x1b[200~"@);
    assert(key_table_02()[10].0 != "\x1b[200~"@);
}

#[verifier::rlimit(100)]
proof fn lemma_paste_no_eq_03()
    ensures
        forall|i: int| 0 <= i < 11 ==> (#[trigger] key_table_03()[i]).0 != "\x1b[200~"@,
{
    reveal_strlit("\x1b[200~");
    assert("\x1b[200~"@.len() == 6);
    reveal_strlit("\x1b[1~");
    reveal_strlit("\x1b[2~");
    reveal_strlit("\x1b[3~");
    reveal_strlit("\x1b[4~");
    reveal_strlit("\x1b[5~");
    reveal_strlit("\x1b[6~");
    reveal_strlit("\x1b[7~");
    reveal_strlit("\x1b[8~");
    reveal_strlit("\x1b[Z");
    reveal_strlit("\x1b[~");
    reveal_strlit("\x1b\x09");
    assert(key_table_03()[0].0 != "\x1b[200~"@);
    assert(key_table_03()[1].0 != "\x1b[200~"@);
    assert(key_table_03()[2].0 != "\x1b[200~"@);
    assert(key_table_03()[3].0 != "\x1b[200~"@);
    assert(key_table_03()[4].0 != "\x1b[200~"@);
    assert(key_table_03()[5].0 != "\x1b[200~"@);
    assert(key_table_03()[6].0 != "\x1b[200~"@);
    assert(key_table_03()[7].0 != "\x1b[200~"@);
    assert(key_table_03()[8].0 != "\x1b[200~"@);
    assert(key_table_03()[9].0 != "\x1b[200~"@);
    assert(key_table_03()[10].0 != "\x1b[200~"@);
}

#[verifier::rlimit(100)]
proof fn lemma_paste_no_eq_04()
    ensures
        forall|i: int| 0 <= i < 11 ==> (#[trigger] key_table_04()[i]).0 != "\x1b[200~"@,
{
    reveal_strlit("\x1b[200~");
    assert("\x1b[200~"@.len() == 6);
    reveal_strlit("\x1bOP");
    reveal_strlit("\x1bOQ");
    reveal_strlit("\x1bOR");
    reveal_strlit("\x1bOS");
    reveal_strlit("\x1b[11~");
    reveal_strlit("\x1b[12~");
    reveal_strlit("\x1b[[A");
    reveal_strlit("\x1b[[B");
    reveal_strlit("\x1b[[C");
    reveal_strlit("\x1b[[D");
    reveal_strlit("\x1b[[E");
    assert(key_table_04()[0].0 != "\x1b[200~"@);
    assert(key_table_04()[1].0 != "\x1b[200~"@);
    assert(key_table_04()[2].0 != "\x1b[200~"@);
    assert(key_table_04()[3].0 != "\x1b[200~"@);
    assert(key_table_04()[4].0 != "\x1b[200~"@);
    assert(key_table_04()[5].0 != "\x1b[200~"@);
    assert(key_table_04()[6].0 != "\x1b[200~"@);
    assert(key_table_04()[7].0 != "\x1b[200~"@);
    assert(key_table_04()[8].0 != "\x1b[200~"@);
    assert(key_table_04()[9].0 != "\x1b[200~"@);
    assert(key_table_04()[10].0 != "\x1b[200~"@);
}

#[verifier::rlimit(100)]
proof fn lemma_paste_no_eq_05()
    ensures
        forall|i: int| 0 <= i < 11 ==> (#[trigger] key_table_05()[i]).0 != "\x1b[200~"@,
{
    reveal_strlit("\x1b[200~");
    assert("\x1b[200~"@.len() == 6);
    reveal_strlit("\x1b[13~");
    reveal_strlit("\x1b[14~");
    reveal_strlit("\x1b[15~");
    reveal_strlit("\x1b[17~");
    reveal_strlit("\x1b[18~");
    reveal_strlit("\x1b[19~");
    reveal_strlit("\x1b[20~");
    reveal_strlit("\x1b[21~");
    reveal_strlit("\x1b[23~");
    reveal_strlit("\x1b[24~");
    reveal_strlit("\x1b[25~");
    assert(key_table_05()[0].0 != "\x1b[200~"@);
    assert(key_table_05()[1].0 != "\x1b[200~"@);
    assert(key_table_05()[2].0 != "\x1b[200~"@);
    assert(key_table_05()[3].0 != "\x1b[200~"@);
    assert(key_table_05()[4].0 != "\x1b[200~"@);
    assert(key_table_05()[5].0 != "\x1b[200~"@);
    assert(key_table_05()[6].0 != "\x1b[200~"@);
    assert(key_table_05()[7].0 != "\x1b[200~"@);
    assert(key_table_05()[8].0 != "\x1b[200~"@);
    assert(key_table_05()[9].0 != "\x1b[200~"@);
    assert(key_table_05()[10].0 != "\x1b[200~"@);
}

#[verifier::rlimit(100)]
proof fn lemma_paste_no_eq_06()
    ensures
        forall|i: int| 0 <= i < 11 ==> (#[trigger] key_table_06()[i]).0 != "\x1b[200~"@,
{
    reveal_strlit("\x1b[200~");
    assert("\x1b[200~"@.len() == 6);
    reveal_strlit("\x1b[15;2~");
    reveal_strlit("\x1b[1;2P");
    reveal_strlit("\x1b[1;2Q");
    reveal_strlit("\x1b[1;2S");
    reveal_strlit("\x1b[26~");
    reveal_strlit("\x1b[28~");
    reveal_strlit("\x1b[29~");
    reveal_strlit("\x1b[31~");
    reveal_strlit("\x1b[32~");
    reveal_strlit("\x1b[33~");
    reveal_strlit("\x1b[34~");
    assert((key_table_06()[7].0)[2] != "\x1b[200~"@[2]);
    assert((key_table_06()[8].0)[2] != "\x1b[200~"@[2]);
    assert((key_table_06()[9].0)[2] != "\x1b[200~"@[2]);
    assert(key_table_06()[0].0 != "\x1b[200~"@);
    assert(key_table_06()[1].0 != "\x1b[200~"@);
    assert(key_table_06()[2].0 != "\x1b[200~"@);
    assert(key_table_06()[3].0 != "\x1b[200~"@);
    assert(key_table_06()[4].0 != "\x1b[200~"@);
    assert(key_table_06()[5].0 != "\x1b[200~"@);
    assert(key_table_06()[6].0 != "\x1b[200~"@);
    assert(key_table_06()[7].0 != "\x1b[200~"@);
    assert(key_table_06()[8].0 != "\x1b[200~"@);
    assert(key_table_06()[9].0 != "\x1b[200~"@);
    assert(key_table_06()[10].0 != "\x1b[200~"@);
}

#[verifier::rlimit(100)]
proof fn lemma_paste_no_eq_07()
    ensures
        forall|i: int| 0 <= i < 11 ==> (#[trigger] key_table_07()[i]).0 != "\x1b[200~"@,
{
    reveal_strlit("\x1b[200~");
    assert("\x1b[200~"@.len() == 6);
    reveal_strlit("\x1b[17;2~");
    reveal_strlit("\x1b[18;2~");
    reveal_strlit("\x1b[19;2~");
    reveal_strlit("\x1b[1;5P");
    reveal_strlit("\x1b[20;2~");
    reveal_strlit("\x1b[21;2~");
    reveal_strlit("\x1b[23;2~");
    reveal_strlit("\x1b[24;2~");
    reveal_strlit("\x1b[27;2;13~");
    reveal_strlit("\x1b[27;5;13~");
    reveal_strlit("\x1b[27;6;13~");
    assert((key_table_07()[10].0)[2] != "\x1b[200~"@[2]);
    assert(key_table_07()[0].0 != "\x1b[200~"@);
    assert(key_table_07()[1].0 != "\x1b[200~"@);
    assert(key_table_07()[2].0 != "\x1b[200~"@);
    assert(key_table_07()[3].0 != "\x1b[200~"@);
    assert(key_table_07()[4].0 != "\x1b[200~"@);
    assert(key_table_07()[5].0 != "\x1b[200~"@);
    assert(key_table_07()[6].0 != "\x1b[200~"@);
    assert(key_table_07()[7].0 != "\x1b[200~"@);
    assert(key_table_07()[8].0 != "\x1b[200~"@);
    assert(key_table_07()[9].0 != "\x1b[200~"@);
    assert(key_table_07()[10].0 != "\x1b[200~"@);
}

#[verifier::rlimit(100)]
proof fn lemma_paste_no_eq_08()
    ensures
        forall|i: int| 0 <= i < 11 ==> (#[trigger] key_table_08()[i]).0 != "\x1b[200~"@,
{
    reveal_strlit("\x1b[200~");
    assert("\x1b[200~"@.len() == 6);
    reveal_strlit("\x1b[15;5~");
    reveal_strlit("\x1b[17;5~");
    reveal_strlit("\x1b[18;5~");
    reveal_strlit("\x1b[19;5~");
    reveal_strlit("\x1b[1;5Q");
    reveal_strlit("\x1b[1;5S");
    reveal_strlit("\x1b[1;6P");
    reveal_strlit("\x1b[20;5~");
    reveal_strlit("\x1b[21;5~");
    reveal_strlit("\x1b[23;5~");
    reveal_strlit("\x1b[24;5~");
    assert((key_table_08()[0].0)[2] != "\x1b[200~"@[2]);
    assert((key_table_08()[1].0)[2] != "\x1b[200~"@[2]);
    assert((key_table_08()[10].0)[2] != "\x1b[200~"@[2]);
    assert(key_table_08()[0].0 != "\x1b[200~"@);
    assert(key_table_08()[1].0 != "\x1b[200~"@);
    assert(key_table_08()[2].0 != "\x1b[200~"@);
    assert(key_table_08()[3].0 != "\x1b[200~"@);
    assert(key_table_08()[4].0 != "\x1b[200~"@);
    assert(key_table_08()[5].0 != "\x1b[200~"@);
    assert(key_table_08()[6].0 != "\x1b[200~"@);
    assert(key_table_08()[7].0 != "\x1b[200~"@);
    assert(key_table_08()[8].0 != "\x1b[200~"@);
    assert(key_table_08()[9].0 != "\x1b[200~"@);
    assert(key_table_08()[10].0 != "\x1b[200~"@);
}

#[verifier::rlimit(100)]
proof fn lemma_paste_no_eq_09()
    ensures
        forall|i: int| 0 <= i < 11 ==> (#[trigger] key_table_09()[i]).0 != "\x1b[200~"@,
{
    reveal_strlit("\x1b[200~");
    assert("\x1b[200~"@.len() == 6);
    reveal_strlit("\x1b[15;6~");
    reveal_strlit("\x1b[17;6~");
    reveal_strlit("\x1b[18;6~");
    reveal_strlit("\x1b[19;6~");
    reveal_strlit("\x1b[1;6Q");
    reveal_strlit("\x1b[1;6S");
    reveal_strlit("\x1b[20;6~");
    reveal_strlit("\x1b[21;6~");
    reveal_strlit("\x1b[23;6~");
    reveal_strlit("\x1b[24;6~");
    reveal_strlit("\x1b[62~");
    assert((key_table_09()[0].0)[2] != "\x1b[200~"@[2]);
    assert((key_table_09()[1].0)[2] != "\x1b[200~"@[2]);
    assert(key_table_09()[0].0 != "\x1b[200~"@);
    assert(key_table_09()[1].0 != "\x1b[200~"@);
    assert(key_table_09()[2].0 != "\x1b[200~"@);
    assert(key_table_09()[3].0 != "\x1b[200~"@);
    assert(key_table_09()[4].0 != "\x1b[200~"@);
    assert(key_table_09()[5].0 != "\x1b[200~"@);
    assert(key_table_09()[6].0 != "\x1b[200~"@);
    assert(key_table_09()[7].0 != "\x1b[200~"@);
    assert(key_table_09()[8].0 != "\x1b[200~"@);
    assert(key_table_09()[9].0 != "\x1b[200~"@);
    assert(key_table_09()[10].0 != "\x1b[200~"@);
}

#[verifier::rlimit(100)]
proof fn lemma_paste_no_eq_10()
    ensures
        forall|i: int| 0 <= i < 1 ==> (#[trigger] key_table_10()[i]).0 != "\x1b[200~"@,
{
    reveal_strlit("\x1b[200~");
    assert("\x1b[200~"@.len() == 6);
    reveal_strlit("\x1b[63~");
    assert(key_table_10()[0].0 != "\x1b[200~"@);
}

/// The facts the parser needs about the bracketed-paste opener: each of its
/// proper prefixes is still a possible match, the opener itself can only be
/// the paste entry, and nothing extends it.
#[verifier::rlimit(100)]
pub proof fn lemma_paste_start_facts()
    ensures
        full_match("\x1b[200~"@) == Some(seq![Keys::BracketedPaste]),
        !is_prefix_match("\x1b[200~"@),
        is_prefix_match("\x1b"@),
        is_prefix_match("\x1b["@),
        is_prefix_match("\x1b[2"@),
        is_prefix_match("\x1b[20"@),
        is_prefix_match("\x1b[200"@),
{
    reveal(key_table);
    reveal(is_prefix_match);
    reveal(full_match);
    reveal_with_fuel(digsemi_run_end, 8);
    reveal_with_fuel(digit_run_end, 8);
    reveal_strlit("\x1b[200~");
    reveal_strlit("\x1b");
    reveal_strlit("\x1b[");
    reveal_strlit("\x1b[2");
    reveal_strlit("\x1b[20");
    reveal_strlit("\x1b[200");
    reveal_strlit("\x1b[1~");

    assert(is_cpr_partial("\x1b["@));
    assert(is_cpr_partial("\x1b[2"@));
    assert(is_cpr_partial("\x1b[20"@));
    assert(is_cpr_partial("\x1b[200"@));

    assert(key_table().len() == 241);
    lemma_key_table_chunk(33);
    assert(key_table()[33] == key_table_03()[0]);
    assert((key_table()[33].0).subrange(0, 1)[0] == (key_table()[33].0)[0]);
    assert((key_table()[33].0).subrange(0, 1) =~= "\x1b"@);
    assert(strict_prefix("\x1b"@, key_table()[33].0));
    assert(is_prefix_match("\x1b"@));

    let ghost p = "\x1b[200~"@;
    assert(!is_cpr_partial(p)) by {
        assert(digsemi_run_end(p, 2) == 5);
    }
    assert(!is_mouse_partial(p)) by {
        assert(digsemi_run_end(p, 2) == 5);
    }
    assert forall|i: int|
        0 <= i < key_table().len() implies !strict_prefix(
        p,
        (#[trigger] key_table()[i]).0,
    ) by {
        lemma_key_table_chunk(i);
        lemma_paste_no_ext_00();
        lemma_paste_no_ext_01();
        lemma_paste_no_ext_02();
        lemma_paste_no_ext_03();
        lemma_paste_no_ext_04();
        lemma_paste_no_ext_05();
        lemma_paste_no_ext_06();
        lemma_paste_no_ext_07();
        lemma_paste_no_ext_08();
        lemma_paste_no_ext_09();
        lemma_paste_no_ext_10();
        lemma_paste_no_ext_11();
        lemma_paste_no_ext_12();
        lemma_paste_no_ext_13();
        lemma_paste_no_ext_14();
        lemma_paste_no_ext_15();
        lemma_paste_no_ext_16();
        lemma_paste_no_ext_17();
        lemma_paste_no_ext_18();
        lemma_paste_no_ext_19();
        lemma_paste_no_ext_20();
        lemma_paste_no_ext_21();
    }
    assert(!is_prefix_match(p));

    assert(!is_cpr_final(p)) by {
        assert(digit_run_end(p, 2) == 5);
    }
    assert(!is_mouse_final(p)) by {
        assert(digsemi_run_end(p, 2) == 5);
    }
    assert forall|j: int| 0 <= j < 111 implies (#[trigger] key_table()[j]).0 != p by {
        lemma_key_table_chunk(j);
        lemma_paste_no_eq_00();
        lemma_paste_no_eq_01();
        lemma_paste_no_eq_02();
        lemma_paste_no_eq_03();
        lemma_paste_no_eq_04();
        lemma_paste_no_eq_05();
        lemma_paste_no_eq_06();
        lemma_paste_no_eq_07();
        lemma_paste_no_eq_08();
        lemma_paste_no_eq_09();
        lemma_paste_no_eq_10();
    }
    lemma_key_table_chunk(111);
    assert(key_table()[111] == key_table_10()[1]);
    assert(key_table()[111].0 == p);
    lemma_table_first_hit(key_table(), p, 111);
    assert(table_lookup(key_table(), p) == Some(key_table()[111].1));
}

} // verus!
