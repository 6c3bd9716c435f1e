use vstd::prelude::*;

verus! {

/// The closed set of key symbols that the input parser can produce.
#[derive(Debug, Copy, Clone, PartialEq, Eq, Hash, Structural)]
pub enum Keys {
    Character(char),
    Escape,
    ShiftEscape,
    ControlAt,
    ControlA,
    ControlB,
    ControlC,
    ControlD,
    ControlE,
    ControlF,
    ControlG,
    ControlH,
    ControlI,
    ControlJ,
    ControlK,
    ControlL,
    ControlM,
    ControlN,
    ControlO,
    ControlP,
    ControlQ,
    ControlR,
    ControlS,
    ControlT,
    ControlU,
    ControlV,
    ControlW,
    ControlX,
    ControlY,
    ControlZ,
    ControlOpenBracket,
    ControlBackslash,
    ControlCloseBracket,
    ControlCircumflex,
    ControlUnderscore,
    Control1,
    Control2,
    Control3,
    Control4,
    Control5,
    Control6,
    Control7,
    Control8,
    Control9,
    Control0,
    ControlShift1,
    ControlShift2,
    ControlShift3,
    ControlShift4,
    ControlShift5,
    ControlShift6,
    ControlShift7,
    ControlShift8,
    ControlShift9,
    ControlShift0,
    Left,
    Right,
    Up,
    Down,
    Home,
    End,
    Insert,
    Delete,
    PageUp,
    PageDown,
    ControlLeft,
    ControlRight,
    ControlUp,
    ControlDown,
    ControlHome,
    ControlEnd,
    ControlInsert,
    ControlDelete,
    ControlPageUp,
    ControlPageDown,
    ShiftLeft,
    ShiftRight,
    ShiftUp,
    ShiftDown,
    ShiftHome,
    ShiftEnd,
    ShiftInsert,
    ShiftDelete,
    ShiftPageUp,
    ShiftPageDown,
    ControlShiftLeft,
    ControlShiftRight,
    ControlShiftUp,
    ControlShiftDown,
    ControlShiftHome,
    ControlShiftEnd,
    ControlShiftInsert,
    ControlShiftDelete,
    ControlShiftPageUp,
    ControlShiftPageDown,
    BackTab,
    F1,
    F2,
    F3,
    F4,
    F5,
    F6,
    F7,
    F8,
    F9,
    F10,
    F11,
    F12,
    F13,
    F14,
    F15,
    F16,
    F17,
    F18,
    F19,
    F20,
    F21,
    F22,
    F23,
    F24,
    ControlF1,
    ControlF2,
    ControlF3,
    ControlF4,
    ControlF5,
    ControlF6,
    ControlF7,
    ControlF8,
    ControlF9,
    ControlF10,
    ControlF11,
    ControlF12,
    ControlF13,
    ControlF14,
    ControlF15,
    ControlF16,
    ControlF17,
    ControlF18,
    ControlF19,
    ControlF20,
    ControlF21,
    ControlF22,
    ControlF23,
    ControlF24,
    Any,
    ScrollUp,
    ScrollDown,
    CPRResponse,
    Vt100MouseEvent,
    WindowsMouseEvent,
    BracketedPaste,
    SigInt,
    Ignore,
}

/// The stable lowercase name of each key symbol, as used for binding lookup.
pub open spec fn key_name(k: Keys) -> Seq<char> {
    match k {
        Keys::Character(_) => ""@,
        Keys::Escape => "escape"@,
        Keys::ShiftEscape => "s-escape"@,
        Keys::ControlAt => "c-@"@,
        Keys::ControlA => "c-a"@,
        Keys::ControlB => "c-b"@,
        Keys::ControlC => "c-c"@,
        Keys::ControlD => "c-d"@,
        Keys::ControlE => "c-e"@,
        Keys::ControlF => "c-f"@,
        Keys::ControlG => "c-g"@,
        Keys::ControlH => "c-h"@,
        Keys::ControlI => "c-i"@,
        Keys::ControlJ => "c-j"@,
        Keys::ControlK => "c-k"@,
        Keys::ControlL => "c-l"@,
        Keys::ControlM => "c-m"@,
        Keys::ControlN => "c-n"@,
        Keys::ControlO => "c-o"@,
        Keys::ControlP => "c-p"@,
        Keys::ControlQ => "c-q"@,
        Keys::ControlR => "c-r"@,
        Keys::ControlS => "c-s"@,
        Keys::ControlT => "c-t"@,
        Keys::ControlU => "c-u"@,
        Keys::ControlV => "c-v"@,
        Keys::ControlW => "c-w"@,
        Keys::ControlX => "c-x"@,
        Keys::ControlY => "c-y"@,
        Keys::ControlZ => "c-z"@,
        Keys::ControlOpenBracket => "c-["@,
        Keys::ControlBackslash => "c-\\"@,
        Keys::ControlCloseBracket => "c-]"@,
        Keys::ControlCircumflex => "c-^"@,
        Keys::ControlUnderscore => "c-_"@,
        Keys::Control1 => "c-1"@,
        Keys::Control2 => "c-2"@,
        Keys::Control3 => "c-3"@,
        Keys::Control4 => "c-4"@,
        Keys::Control5 => "c-5"@,
        Keys::Control6 => "c-6"@,
        Keys::Control7 => "c-7"@,
        Keys::Control8 => "c-8"@,
        Keys::Control9 => "c-9"@,
        Keys::Control0 => "c-0"@,
        Keys::ControlShift1 => "c-s-1"@,
        Keys::ControlShift2 => "c-s-2"@,
        Keys::ControlShift3 => "c-s-3"@,
        Keys::ControlShift4 => "c-s-4"@,
        Keys::ControlShift5 => "c-s-5"@,
        Keys::ControlShift6 => "c-s-6"@,
        Keys::ControlShift7 => "c-s-7"@,
        Keys::ControlShift8 => "c-s-8"@,
        Keys::ControlShift9 => "c-s-9"@,
        Keys::ControlShift0 => "c-s-0"@,
        Keys::Left => "left"@,
        Keys::Right => "right"@,
        Keys::Up => "up"@,
        Keys::Down => "down"@,
        Keys::Home => "home"@,
        Keys::End => "end"@,
        Keys::Insert => "insert"@,
        Keys::Delete => "delete"@,
        Keys::PageUp => "page-up"@,
        Keys::PageDown => "page-down"@,
        Keys::ControlLeft => "c-left"@,
        Keys::ControlRight => "c-right"@,
        Keys::ControlUp => "c-up"@,
        Keys::ControlDown => "c-down"@,
        Keys::ControlHome => "c-home"@,
        Keys::ControlEnd => "c-end"@,
        Keys::ControlInsert => "c-insert"@,
        Keys::ControlDelete => "c-delete"@,
        Keys::ControlPageUp => "c-page-up"@,
        Keys::ControlPageDown => "c-page-down"@,
        Keys::ShiftLeft => "s-left"@,
        Keys::ShiftRight => "s-right"@,
        Keys::ShiftUp => "s-up"@,
        Keys::ShiftDown => "s-down"@,
        Keys::ShiftHome => "s-home"@,
        Keys::ShiftEnd => "s-end"@,
        Keys::ShiftInsert => "s-insert"@,
        Keys::ShiftDelete => "s-delete"@,
        Keys::ShiftPageUp => "s-page-up"@,
        Keys::ShiftPageDown => "s-page-down"@,
        Keys::ControlShiftLeft => "c-s-left"@,
        Keys::ControlShiftRight => "c-s-right"@,
        Keys::ControlShiftUp => "c-s-up"@,
        Keys::ControlShiftDown => "c-s-down"@,
        Keys::ControlShiftHome => "c-s-home"@,
        Keys::ControlShiftEnd => "c-s-end"@,
        Keys::ControlShiftInsert => "c-s-insert"@,
        Keys::ControlShiftDelete => "c-s-delete"@,
        Keys::ControlShiftPageUp => "c-s-page-up"@,
        Keys::ControlShiftPageDown => "c-s-page-down"@,
        Keys::BackTab => "s-tab"@,
        Keys::F1 => "f1"@,
        Keys::F2 => "f2"@,
        Keys::F3 => "f3"@,
        Keys::F4 => "f4"@,
        Keys::F5 => "f5"@,
        Keys::F6 => "f6"@,
        Keys::F7 => "f7"@,
        Keys::F8 => "f8"@,
        Keys::F9 => "f9"@,
        Keys::F10 => "f10"@,
        Keys::F11 => "f11"@,
        Keys::F12 => "f12"@,
        Keys::F13 => "f13"@,
        Keys::F14 => "f14"@,
        Keys::F15 => "f15"@,
        Keys::F16 => "f16"@,
        Keys::F17 => "f17"@,
        Keys::F18 => "f18"@,
        Keys::F19 => "f19"@,
        Keys::F20 => "f20"@,
        Keys::F21 => "f21"@,
        Keys::F22 => "f22"@,
        Keys::F23 => "f23"@,
        Keys::F24 => "f24"@,
        Keys::ControlF1 => "c-f1"@,
        Keys::ControlF2 => "c-f2"@,
        Keys::ControlF3 => "c-f3"@,
        Keys::ControlF4 => "c-f4"@,
        Keys::ControlF5 => "c-f5"@,
        Keys::ControlF6 => "c-f6"@,
        Keys::ControlF7 => "c-f7"@,
        Keys::ControlF8 => "c-f8"@,
        Keys::ControlF9 => "c-f9"@,
        Keys::ControlF10 => "c-f10"@,
        Keys::ControlF11 => "c-f11"@,
        Keys::ControlF12 => "c-f12"@,
        Keys::ControlF13 => "c-f13"@,
        Keys::ControlF14 => "c-f14"@,
        Keys::ControlF15 => "c-f15"@,
        Keys::ControlF16 => "c-f16"@,
        Keys::ControlF17 => "c-f17"@,
        Keys::ControlF18 => "c-f18"@,
        Keys::ControlF19 => "c-f19"@,
        Keys::ControlF20 => "c-f20"@,
        Keys::ControlF21 => "c-f21"@,
        Keys::ControlF22 => "c-f22"@,
        Keys::ControlF23 => "c-f23"@,
        Keys::ControlF24 => "c-f24"@,
        Keys::Any => "<any>"@,
        Keys::ScrollUp => "<scroll-up>"@,
        Keys::ScrollDown => "<scroll-down>"@,
        Keys::CPRResponse => "<cpr-response>"@,
        Keys::Vt100MouseEvent => "<vt100-mouse-event>"@,
        Keys::WindowsMouseEvent => "<windows-mouse-event>"@,
        Keys::BracketedPaste => "<bracketed-paste>"@,
        Keys::SigInt => "<sigint>"@,
        Keys::Ignore => "<ignore>"@,
    }
}

impl Keys {
    /// The stable lowercase name of this key symbol; `Character` keys have none.
    pub fn as_str(self) -> (r: &'static str)
        ensures
            r@ == key_name(self),
    {
        match self {
            Keys::Character(_) => "",
            Keys::Escape => "escape",
            Keys::ShiftEscape => "s-escape",
            Keys::ControlAt => "c-@",
            Keys::ControlA => "c-a",
            Keys::ControlB => "c-b",
            Keys::ControlC => "c-c",
            Keys::ControlD => "c-d",
            Keys::ControlE => "c-e",
            Keys::ControlF => "c-f",
            Keys::ControlG => "c-g",
            Keys::ControlH => "c-h",
            Keys::ControlI => "c-i",
            Keys::ControlJ => "c-j",
            Keys::ControlK => "c-k",
            Keys::ControlL => "c-l",
            Keys::ControlM => "c-m",
            Keys::ControlN => "c-n",
            Keys::ControlO => "c-o",
            Keys::ControlP => "c-p",
            Keys::ControlQ => "c-q",
            Keys::ControlR => "c-r",
            Keys::ControlS => "c-s",
            Keys::ControlT => "c-t",
            Keys::ControlU => "c-u",
            Keys::ControlV => "c-v",
            Keys::ControlW => "c-w",
            Keys::ControlX => "c-x",
            Keys::ControlY => "c-y",
            Keys::ControlZ => "c-z",
            Keys::ControlOpenBracket => "c-[",
            Keys::ControlBackslash => "c-\\",
            Keys::ControlCloseBracket => "c-]",
            Keys::ControlCircumflex => "c-^",
            Keys::ControlUnderscore => "c-_",
            Keys::Control1 => "c-1",
            Keys::Control2 => "c-2",
            Keys::Control3 => "c-3",
            Keys::Control4 => "c-4",
            Keys::Control5 => "c-5",
            Keys::Control6 => "c-6",
            Keys::Control7 => "c-7",
            Keys::Control8 => "c-8",
            Keys::Control9 => "c-9",
            Keys::Control0 => "c-0",
            Keys::ControlShift1 => "c-s-1",
            Keys::ControlShift2 => "c-s-2",
            Keys::ControlShift3 => "c-s-3",
            Keys::ControlShift4 => "c-s-4",
            Keys::ControlShift5 => "c-s-5",
            Keys::ControlShift6 => "c-s-6",
            Keys::ControlShift7 => "c-s-7",
            Keys::ControlShift8 => "c-s-8",
            Keys::ControlShift9 => "c-s-9",
            Keys::ControlShift0 => "c-s-0",
            Keys::Left => "left",
            Keys::Right => "right",
            Keys::Up => "up",
            Keys::Down => "down",
            Keys::Home => "home",
            Keys::End => "end",
            Keys::Insert => "insert",
            Keys::Delete => "delete",
            Keys::PageUp => "page-up",
            Keys::PageDown => "page-down",
            Keys::ControlLeft => "c-left",
            Keys::ControlRight => "c-right",
            Keys::ControlUp => "c-up",
            Keys::ControlDown => "c-down",
            Keys::ControlHome => "c-home",
            Keys::ControlEnd => "c-end",
            Keys::ControlInsert => "c-insert",
            Keys::ControlDelete => "c-delete",
            Keys::ControlPageUp => "c-page-up",
            Keys::ControlPageDown => "c-page-down",
            Keys::ShiftLeft => "s-left",
            Keys::ShiftRight => "s-right",
            Keys::ShiftUp => "s-up",
            Keys::ShiftDown => "s-down",
            Keys::ShiftHome => "s-home",
            Keys::ShiftEnd => "s-end",
            Keys::ShiftInsert => "s-insert",
            Keys::ShiftDelete => "s-delete",
            Keys::ShiftPageUp => "s-page-up",
            Keys::ShiftPageDown => "s-page-down",
            Keys::ControlShiftLeft => "c-s-left",
            Keys::ControlShiftRight => "c-s-right",
            Keys::ControlShiftUp => "c-s-up",
            Keys::ControlShiftDown => "c-s-down",
            Keys::ControlShiftHome => "c-s-home",
            Keys::ControlShiftEnd => "c-s-end",
            Keys::ControlShiftInsert => "c-s-insert",
            Keys::ControlShiftDelete => "c-s-delete",
            Keys::ControlShiftPageUp => "c-s-page-up",
            Keys::ControlShiftPageDown => "c-s-page-down",
            Keys::BackTab => "s-tab",
            Keys::F1 => "f1",
            Keys::F2 => "f2",
            Keys::F3 => "f3",
            Keys::F4 => "f4",
            Keys::F5 => "f5",
            Keys::F6 => "f6",
            Keys::F7 => "f7",
            Keys::F8 => "f8",
            Keys::F9 => "f9",
            Keys::F10 => "f10",
            Keys::F11 => "f11",
            Keys::F12 => "f12",
            Keys::F13 => "f13",
            Keys::F14 => "f14",
            Keys::F15 => "f15",
            Keys::F16 => "f16",
            Keys::F17 => "f17",
            Keys::F18 => "f18",
            Keys::F19 => "f19",
            Keys::F20 => "f20",
            Keys::F21 => "f21",
            Keys::F22 => "f22",
            Keys::F23 => "f23",
            Keys::F24 => "f24",
            Keys::ControlF1 => "c-f1",
            Keys::ControlF2 => "c-f2",
            Keys::ControlF3 => "c-f3",
            Keys::ControlF4 => "c-f4",
            Keys::ControlF5 => "c-f5",
            Keys::ControlF6 => "c-f6",
            Keys::ControlF7 => "c-f7",
            Keys::ControlF8 => "c-f8",
            Keys::ControlF9 => "c-f9",
            Keys::ControlF10 => "c-f10",
            Keys::ControlF11 => "c-f11",
            Keys::ControlF12 => "c-f12",
            Keys::ControlF13 => "c-f13",
            Keys::ControlF14 => "c-f14",
            Keys::ControlF15 => "c-f15",
            Keys::ControlF16 => "c-f16",
            Keys::ControlF17 => "c-f17",
            Keys::ControlF18 => "c-f18",
            Keys::ControlF19 => "c-f19",
            Keys::ControlF20 => "c-f20",
            Keys::ControlF21 => "c-f21",
            Keys::ControlF22 => "c-f22",
            Keys::ControlF23 => "c-f23",
            Keys::ControlF24 => "c-f24",
            Keys::Any => "<any>",
            Keys::ScrollUp => "<scroll-up>",
            Keys::ScrollDown => "<scroll-down>",
            Keys::CPRResponse => "<cpr-response>",
            Keys::Vt100MouseEvent => "<vt100-mouse-event>",
            Keys::WindowsMouseEvent => "<windows-mouse-event>",
            Keys::BracketedPaste => "<bracketed-paste>",
            Keys::SigInt => "<sigint>",
            Keys::Ignore => "<ignore>",
        }
    }
}

} // verus!
