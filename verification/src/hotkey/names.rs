//! Key names are read back as the keys they were written for.
use crate::hotkey::bindings;
use crate::hotkey::bindings::{KeySpec, ModFamily};
use crate::hotkey::capture;
use crate::hotkey::capture::CaptureEvent;
use crate::hotkey::events::RawEvent;
use crate::hotkey::key::Key;
use crate::text;
use vstd::prelude::*;

verus! {

/// The length of a text, and its first, middle and last character.
spec fn outline(s: Seq<char>) -> (nat, char, char, char) {
    (s.len(), s[0], s[s.len() as int / 2], s.last())
}

/// The outlines of all names in lower case: no two of them have the same.
proof fn lemma_outlines()
    ensures
        outline("control"@) == (7nat, 'c', 't', 'l'),
        outline("ctrl"@) == (4nat, 'c', 'r', 'l'),
        outline("meta"@) == (4nat, 'm', 't', 'a'),
        outline("win"@) == (3nat, 'w', 'i', 'n'),
        outline("command"@) == (7nat, 'c', 'm', 'd'),
        outline("cmd"@) == (3nat, 'c', 'm', 'd'),
        outline("super"@) == (5nat, 's', 'p', 'r'),
        outline("alt"@) == (3nat, 'a', 'l', 't'),
        outline("option"@) == (6nat, 'o', 'i', 'n'),
        outline("opt"@) == (3nat, 'o', 'p', 't'),
        outline("shift"@) == (5nat, 's', 'i', 't'),
        outline("altgr"@) == (5nat, 'a', 't', 'r'),
        outline("backspace"@) == (9nat, 'b', 's', 'e'),
        outline("capslock"@) == (8nat, 'c', 'l', 'k'),
        outline("controlleft"@) == (11nat, 'c', 'o', 't'),
        outline("leftcontrol"@) == (11nat, 'l', 'o', 'l'),
        outline("controlright"@) == (12nat, 'c', 'l', 't'),
        outline("rightcontrol"@) == (12nat, 'r', 'o', 'l'),
        outline("delete"@) == (6nat, 'd', 'e', 'e'),
        outline("downarrow"@) == (9nat, 'd', 'a', 'w'),
        outline("down"@) == (4nat, 'd', 'w', 'n'),
        outline("end"@) == (3nat, 'e', 'n', 'd'),
        outline("escape"@) == (6nat, 'e', 'a', 'e'),
        outline("esc"@) == (3nat, 'e', 's', 'c'),
        outline("f1"@) == (2nat, 'f', '1', '1'),
        outline("f2"@) == (2nat, 'f', '2', '2'),
        outline("f3"@) == (2nat, 'f', '3', '3'),
        outline("f4"@) == (2nat, 'f', '4', '4'),
        outline("f5"@) == (2nat, 'f', '5', '5'),
        outline("f6"@) == (2nat, 'f', '6', '6'),
        outline("f7"@) == (2nat, 'f', '7', '7'),
        outline("f8"@) == (2nat, 'f', '8', '8'),
        outline("f9"@) == (2nat, 'f', '9', '9'),
        outline("f10"@) == (3nat, 'f', '1', '0'),
        outline("f11"@) == (3nat, 'f', '1', '1'),
        outline("f12"@) == (3nat, 'f', '1', '2'),
        outline("home"@) == (4nat, 'h', 'm', 'e'),
        outline("insert"@) == (6nat, 'i', 'e', 't'),
        outline("leftarrow"@) == (9nat, 'l', 'a', 'w'),
        outline("left"@) == (4nat, 'l', 'f', 't'),
        outline("metaleft"@) == (8nat, 'm', 'l', 't'),
        outline("leftmeta"@) == (8nat, 'l', 'm', 'a'),
        outline("winleft"@) == (7nat, 'w', 'l', 't'),
        outline("leftwin"@) == (7nat, 'l', 't', 'n'),
        outline("metaright"@) == (9nat, 'm', 'r', 't'),
        outline("rightmeta"@) == (9nat, 'r', 't', 'a'),
        outline("winright"@) == (8nat, 'w', 'i', 't'),
        outline("rightwin"@) == (8nat, 'r', 't', 'n'),
        outline("numlock"@) == (7nat, 'n', 'l', 'k'),
        outline("pagedown"@) == (8nat, 'p', 'd', 'n'),
        outline("pageup"@) == (6nat, 'p', 'e', 'p'),
        outline("pause"@) == (5nat, 'p', 'u', 'e'),
        outline("printscreen"@) == (11nat, 'p', 's', 'n'),
        outline("return"@) == (6nat, 'r', 'u', 'n'),
        outline("enter"@) == (5nat, 'e', 't', 'r'),
        outline("rightarrow"@) == (10nat, 'r', 'a', 'w'),
        outline("right"@) == (5nat, 'r', 'g', 't'),
        outline("scrolllock"@) == (10nat, 's', 'l', 'k'),
        outline("shiftleft"@) == (9nat, 's', 't', 't'),
        outline("leftshift"@) == (9nat, 'l', 's', 't'),
        outline("shiftright"@) == (10nat, 's', 'r', 't'),
        outline("rightshift"@) == (10nat, 'r', 's', 't'),
        outline("space"@) == (5nat, 's', 'a', 'e'),
        outline("tab"@) == (3nat, 't', 'a', 'b'),
        outline("uparrow"@) == (7nat, 'u', 'r', 'w'),
        outline("up"@) == (2nat, 'u', 'p', 'p'),
        outline("a"@) == (1nat, 'a', 'a', 'a'),
        outline("keya"@) == (4nat, 'k', 'y', 'a'),
        outline("b"@) == (1nat, 'b', 'b', 'b'),
        outline("keyb"@) == (4nat, 'k', 'y', 'b'),
        outline("c"@) == (1nat, 'c', 'c', 'c'),
        outline("keyc"@) == (4nat, 'k', 'y', 'c'),
        outline("d"@) == (1nat, 'd', 'd', 'd'),
        outline("keyd"@) == (4nat, 'k', 'y', 'd'),
        outline("e"@) == (1nat, 'e', 'e', 'e'),
        outline("keye"@) == (4nat, 'k', 'y', 'e'),
        outline("f"@) == (1nat, 'f', 'f', 'f'),
        outline("keyf"@) == (4nat, 'k', 'y', 'f'),
        outline("g"@) == (1nat, 'g', 'g', 'g'),
        outline("keyg"@) == (4nat, 'k', 'y', 'g'),
        outline("h"@) == (1nat, 'h', 'h', 'h'),
        outline("keyh"@) == (4nat, 'k', 'y', 'h'),
        outline("i"@) == (1nat, 'i', 'i', 'i'),
        outline("keyi"@) == (4nat, 'k', 'y', 'i'),
        outline("j"@) == (1nat, 'j', 'j', 'j'),
        outline("keyj"@) == (4nat, 'k', 'y', 'j'),
        outline("k"@) == (1nat, 'k', 'k', 'k'),
        outline("keyk"@) == (4nat, 'k', 'y', 'k'),
        outline("l"@) == (1nat, 'l', 'l', 'l'),
        outline("keyl"@) == (4nat, 'k', 'y', 'l'),
        outline("m"@) == (1nat, 'm', 'm', 'm'),
        outline("keym"@) == (4nat, 'k', 'y', 'm'),
        outline("n"@) == (1nat, 'n', 'n', 'n'),
        outline("keyn"@) == (4nat, 'k', 'y', 'n'),
        outline("o"@) == (1nat, 'o', 'o', 'o'),
        outline("keyo"@) == (4nat, 'k', 'y', 'o'),
        outline("p"@) == (1nat, 'p', 'p', 'p'),
        outline("keyp"@) == (4nat, 'k', 'y', 'p'),
        outline("q"@) == (1nat, 'q', 'q', 'q'),
        outline("keyq"@) == (4nat, 'k', 'y', 'q'),
        outline("r"@) == (1nat, 'r', 'r', 'r'),
        outline("keyr"@) == (4nat, 'k', 'y', 'r'),
        outline("s"@) == (1nat, 's', 's', 's'),
        outline("keys"@) == (4nat, 'k', 'y', 's'),
        outline("t"@) == (1nat, 't', 't', 't'),
        outline("keyt"@) == (4nat, 'k', 'y', 't'),
        outline("u"@) == (1nat, 'u', 'u', 'u'),
        outline("keyu"@) == (4nat, 'k', 'y', 'u'),
        outline("v"@) == (1nat, 'v', 'v', 'v'),
        outline("keyv"@) == (4nat, 'k', 'y', 'v'),
        outline("w"@) == (1nat, 'w', 'w', 'w'),
        outline("keyw"@) == (4nat, 'k', 'y', 'w'),
        outline("x"@) == (1nat, 'x', 'x', 'x'),
        outline("keyx"@) == (4nat, 'k', 'y', 'x'),
        outline("y"@) == (1nat, 'y', 'y', 'y'),
        outline("keyy"@) == (4nat, 'k', 'y', 'y'),
        outline("z"@) == (1nat, 'z', 'z', 'z'),
        outline("keyz"@) == (4nat, 'k', 'y', 'z'),
        outline("0"@) == (1nat, '0', '0', '0'),
        outline("num0"@) == (4nat, 'n', 'm', '0'),
        outline("1"@) == (1nat, '1', '1', '1'),
        outline("num1"@) == (4nat, 'n', 'm', '1'),
        outline("2"@) == (1nat, '2', '2', '2'),
        outline("num2"@) == (4nat, 'n', 'm', '2'),
        outline("3"@) == (1nat, '3', '3', '3'),
        outline("num3"@) == (4nat, 'n', 'm', '3'),
        outline("4"@) == (1nat, '4', '4', '4'),
        outline("num4"@) == (4nat, 'n', 'm', '4'),
        outline("5"@) == (1nat, '5', '5', '5'),
        outline("num5"@) == (4nat, 'n', 'm', '5'),
        outline("6"@) == (1nat, '6', '6', '6'),
        outline("num6"@) == (4nat, 'n', 'm', '6'),
        outline("7"@) == (1nat, '7', '7', '7'),
        outline("num7"@) == (4nat, 'n', 'm', '7'),
        outline("8"@) == (1nat, '8', '8', '8'),
        outline("num8"@) == (4nat, 'n', 'm', '8'),
        outline("9"@) == (1nat, '9', '9', '9'),
        outline("num9"@) == (4nat, 'n', 'm', '9'),
        outline("backquote"@) == (9nat, 'b', 'q', 'e'),
        outline("`"@) == (1nat, '`', '`', '`'),
        outline("minus"@) == (5nat, 'm', 'n', 's'),
        outline("-"@) == (1nat, '-', '-', '-'),
        outline("equal"@) == (5nat, 'e', 'u', 'l'),
        outline("="@) == (1nat, '=', '=', '='),
        outline("leftbracket"@) == (11nat, 'l', 'r', 't'),
        outline("["@) == (1nat, '[', '[', '['),
        outline("rightbracket"@) == (12nat, 'r', 'r', 't'),
        outline("]"@) == (1nat, ']', ']', ']'),
        outline("semicolon"@) == (9nat, 's', 'c', 'n'),
        outline(";"@) == (1nat, ';', ';', ';'),
        outline("quote"@) == (5nat, 'q', 'o', 'e'),
        outline("'"@) == (1nat, '\'', '\'', '\''),
        outline("backslash"@) == (9nat, 'b', 's', 'h'),
        outline("\\"@) == (1nat, '\\', '\\', '\\'),
        outline("intlbackslash"@) == (13nat, 'i', 'c', 'h'),
        outline("comma"@) == (5nat, 'c', 'm', 'a'),
        outline(","@) == (1nat, ',', ',', ','),
        outline("dot"@) == (3nat, 'd', 'o', 't'),
        outline("."@) == (1nat, '.', '.', '.'),
        outline("slash"@) == (5nat, 's', 'a', 'h'),
        outline("/"@) == (1nat, '/', '/', '/'),
        outline("kpreturn"@) == (8nat, 'k', 't', 'n'),
        outline("kpenter"@) == (7nat, 'k', 'n', 'r'),
        outline("kpminus"@) == (7nat, 'k', 'i', 's'),
        outline("kpplus"@) == (6nat, 'k', 'l', 's'),
        outline("kpmultiply"@) == (10nat, 'k', 't', 'y'),
        outline("kpdivide"@) == (8nat, 'k', 'v', 'e'),
        outline("kp0"@) == (3nat, 'k', 'p', '0'),
        outline("kp1"@) == (3nat, 'k', 'p', '1'),
        outline("kp2"@) == (3nat, 'k', 'p', '2'),
        outline("kp3"@) == (3nat, 'k', 'p', '3'),
        outline("kp4"@) == (3nat, 'k', 'p', '4'),
        outline("kp5"@) == (3nat, 'k', 'p', '5'),
        outline("kp6"@) == (3nat, 'k', 'p', '6'),
        outline("kp7"@) == (3nat, 'k', 'p', '7'),
        outline("kp8"@) == (3nat, 'k', 'p', '8'),
        outline("kp9"@) == (3nat, 'k', 'p', '9'),
        outline("kpdelete"@) == (8nat, 'k', 'l', 'e'),
        outline("function"@) == (8nat, 'f', 't', 'n'),
        outline("fn"@) == (2nat, 'f', 'n', 'n'),
{
    reveal_strlit("control");
    reveal_strlit("ctrl");
    reveal_strlit("meta");
    reveal_strlit("win");
    reveal_strlit("command");
    reveal_strlit("cmd");
    reveal_strlit("super");
    reveal_strlit("alt");
    reveal_strlit("option");
    reveal_strlit("opt");
    reveal_strlit("shift");
    reveal_strlit("altgr");
    reveal_strlit("backspace");
    reveal_strlit("capslock");
    reveal_strlit("controlleft");
    reveal_strlit("leftcontrol");
    reveal_strlit("controlright");
    reveal_strlit("rightcontrol");
    reveal_strlit("delete");
    reveal_strlit("downarrow");
    reveal_strlit("down");
    reveal_strlit("end");
    reveal_strlit("escape");
    reveal_strlit("esc");
    reveal_strlit("f1");
    reveal_strlit("f2");
    reveal_strlit("f3");
    reveal_strlit("f4");
    reveal_strlit("f5");
    reveal_strlit("f6");
    reveal_strlit("f7");
    reveal_strlit("f8");
    reveal_strlit("f9");
    reveal_strlit("f10");
    reveal_strlit("f11");
    reveal_strlit("f12");
    reveal_strlit("home");
    reveal_strlit("insert");
    reveal_strlit("leftarrow");
    reveal_strlit("left");
    reveal_strlit("metaleft");
    reveal_strlit("leftmeta");
    reveal_strlit("winleft");
    reveal_strlit("leftwin");
    reveal_strlit("metaright");
    reveal_strlit("rightmeta");
    reveal_strlit("winright");
    reveal_strlit("rightwin");
    reveal_strlit("numlock");
    reveal_strlit("pagedown");
    reveal_strlit("pageup");
    reveal_strlit("pause");
    reveal_strlit("printscreen");
    reveal_strlit("return");
    reveal_strlit("enter");
    reveal_strlit("rightarrow");
    reveal_strlit("right");
    reveal_strlit("scrolllock");
    reveal_strlit("shiftleft");
    reveal_strlit("leftshift");
    reveal_strlit("shiftright");
    reveal_strlit("rightshift");
    reveal_strlit("space");
    reveal_strlit("tab");
    reveal_strlit("uparrow");
    reveal_strlit("up");
    reveal_strlit("a");
    reveal_strlit("keya");
    reveal_strlit("b");
    reveal_strlit("keyb");
    reveal_strlit("c");
    reveal_strlit("keyc");
    reveal_strlit("d");
    reveal_strlit("keyd");
    reveal_strlit("e");
    reveal_strlit("keye");
    reveal_strlit("f");
    reveal_strlit("keyf");
    reveal_strlit("g");
    reveal_strlit("keyg");
    reveal_strlit("h");
    reveal_strlit("keyh");
    reveal_strlit("i");
    reveal_strlit("keyi");
    reveal_strlit("j");
    reveal_strlit("keyj");
    reveal_strlit("k");
    reveal_strlit("keyk");
    reveal_strlit("l");
    reveal_strlit("keyl");
    reveal_strlit("m");
    reveal_strlit("keym");
    reveal_strlit("n");
    reveal_strlit("keyn");
    reveal_strlit("o");
    reveal_strlit("keyo");
    reveal_strlit("p");
    reveal_strlit("keyp");
    reveal_strlit("q");
    reveal_strlit("keyq");
    reveal_strlit("r");
    reveal_strlit("keyr");
    reveal_strlit("s");
    reveal_strlit("keys");
    reveal_strlit("t");
    reveal_strlit("keyt");
    reveal_strlit("u");
    reveal_strlit("keyu");
    reveal_strlit("v");
    reveal_strlit("keyv");
    reveal_strlit("w");
    reveal_strlit("keyw");
    reveal_strlit("x");
    reveal_strlit("keyx");
    reveal_strlit("y");
    reveal_strlit("keyy");
    reveal_strlit("z");
    reveal_strlit("keyz");
    reveal_strlit("0");
    reveal_strlit("num0");
    reveal_strlit("1");
    reveal_strlit("num1");
    reveal_strlit("2");
    reveal_strlit("num2");
    reveal_strlit("3");
    reveal_strlit("num3");
    reveal_strlit("4");
    reveal_strlit("num4");
    reveal_strlit("5");
    reveal_strlit("num5");
    reveal_strlit("6");
    reveal_strlit("num6");
    reveal_strlit("7");
    reveal_strlit("num7");
    reveal_strlit("8");
    reveal_strlit("num8");
    reveal_strlit("9");
    reveal_strlit("num9");
    reveal_strlit("backquote");
    reveal_strlit("`");
    reveal_strlit("minus");
    reveal_strlit("-");
    reveal_strlit("equal");
    reveal_strlit("=");
    reveal_strlit("leftbracket");
    reveal_strlit("[");
    reveal_strlit("rightbracket");
    reveal_strlit("]");
    reveal_strlit("semicolon");
    reveal_strlit(";");
    reveal_strlit("quote");
    reveal_strlit("'");
    reveal_strlit("backslash");
    reveal_strlit("\\");
    reveal_strlit("intlbackslash");
    reveal_strlit("comma");
    reveal_strlit(",");
    reveal_strlit("dot");
    reveal_strlit(".");
    reveal_strlit("slash");
    reveal_strlit("/");
    reveal_strlit("kpreturn");
    reveal_strlit("kpenter");
    reveal_strlit("kpminus");
    reveal_strlit("kpplus");
    reveal_strlit("kpmultiply");
    reveal_strlit("kpdivide");
    reveal_strlit("kp0");
    reveal_strlit("kp1");
    reveal_strlit("kp2");
    reveal_strlit("kp3");
    reveal_strlit("kp4");
    reveal_strlit("kp5");
    reveal_strlit("kp6");
    reveal_strlit("kp7");
    reveal_strlit("kp8");
    reveal_strlit("kp9");
    reveal_strlit("kpdelete");
    reveal_strlit("function");
    reveal_strlit("fn");
}

proof fn lemma_first_keys()
    ensures
        bindings::spec_named("AltGr"@) == Some(KeySpec::Exact(Key::AltGr)),
        bindings::spec_named("Backspace"@) == Some(KeySpec::Exact(Key::Backspace)),
        bindings::spec_named("CapsLock"@) == Some(KeySpec::Exact(Key::CapsLock)),
        bindings::spec_named("ControlLeft"@) == Some(KeySpec::Exact(Key::ControlLeft)),
        bindings::spec_named("ControlRight"@) == Some(KeySpec::Exact(Key::ControlRight)),
        bindings::spec_named("Delete"@) == Some(KeySpec::Exact(Key::Delete)),
        bindings::spec_named("DownArrow"@) == Some(KeySpec::Exact(Key::DownArrow)),
        bindings::spec_named("End"@) == Some(KeySpec::Exact(Key::End)),
        bindings::spec_named("Escape"@) == Some(KeySpec::Exact(Key::Escape)),
        bindings::spec_named("F1"@) == Some(KeySpec::Exact(Key::F1)),
        bindings::spec_named("F2"@) == Some(KeySpec::Exact(Key::F2)),
        bindings::spec_named("F3"@) == Some(KeySpec::Exact(Key::F3)),
        bindings::spec_named("F4"@) == Some(KeySpec::Exact(Key::F4)),
        bindings::spec_named("F5"@) == Some(KeySpec::Exact(Key::F5)),
        bindings::spec_named("F6"@) == Some(KeySpec::Exact(Key::F6)),
        bindings::spec_named("F7"@) == Some(KeySpec::Exact(Key::F7)),
        bindings::spec_named("F8"@) == Some(KeySpec::Exact(Key::F8)),
{
    lemma_outlines();
    reveal_strlit("AltGr");
    reveal_strlit("altgr");
    assert(text::ascii_lower_text("AltGr"@) =~= "altgr"@);
    reveal_strlit("Backspace");
    reveal_strlit("backspace");
    assert(text::ascii_lower_text("Backspace"@) =~= "backspace"@);
    reveal_strlit("CapsLock");
    reveal_strlit("capslock");
    assert(text::ascii_lower_text("CapsLock"@) =~= "capslock"@);
    reveal_strlit("ControlLeft");
    reveal_strlit("controlleft");
    assert(text::ascii_lower_text("ControlLeft"@) =~= "controlleft"@);
    reveal_strlit("ControlRight");
    reveal_strlit("controlright");
    assert(text::ascii_lower_text("ControlRight"@) =~= "controlright"@);
    reveal_strlit("Delete");
    reveal_strlit("delete");
    assert(text::ascii_lower_text("Delete"@) =~= "delete"@);
    reveal_strlit("DownArrow");
    reveal_strlit("downarrow");
    assert(text::ascii_lower_text("DownArrow"@) =~= "downarrow"@);
    reveal_strlit("End");
    reveal_strlit("end");
    assert(text::ascii_lower_text("End"@) =~= "end"@);
    reveal_strlit("Escape");
    reveal_strlit("escape");
    assert(text::ascii_lower_text("Escape"@) =~= "escape"@);
    reveal_strlit("F1");
    reveal_strlit("f1");
    assert(text::ascii_lower_text("F1"@) =~= "f1"@);
    reveal_strlit("F2");
    reveal_strlit("f2");
    assert(text::ascii_lower_text("F2"@) =~= "f2"@);
    reveal_strlit("F3");
    reveal_strlit("f3");
    assert(text::ascii_lower_text("F3"@) =~= "f3"@);
    reveal_strlit("F4");
    reveal_strlit("f4");
    assert(text::ascii_lower_text("F4"@) =~= "f4"@);
    reveal_strlit("F5");
    reveal_strlit("f5");
    assert(text::ascii_lower_text("F5"@) =~= "f5"@);
    reveal_strlit("F6");
    reveal_strlit("f6");
    assert(text::ascii_lower_text("F6"@) =~= "f6"@);
    reveal_strlit("F7");
    reveal_strlit("f7");
    assert(text::ascii_lower_text("F7"@) =~= "f7"@);
    reveal_strlit("F8");
    reveal_strlit("f8");
    assert(text::ascii_lower_text("F8"@) =~= "f8"@);
}

proof fn lemma_second_keys()
    ensures
        bindings::spec_named("F9"@) == Some(KeySpec::Exact(Key::F9)),
        bindings::spec_named("F10"@) == Some(KeySpec::Exact(Key::F10)),
        bindings::spec_named("F11"@) == Some(KeySpec::Exact(Key::F11)),
        bindings::spec_named("F12"@) == Some(KeySpec::Exact(Key::F12)),
        bindings::spec_named("Home"@) == Some(KeySpec::Exact(Key::Home)),
        bindings::spec_named("Insert"@) == Some(KeySpec::Exact(Key::Insert)),
        bindings::spec_named("LeftArrow"@) == Some(KeySpec::Exact(Key::LeftArrow)),
        bindings::spec_named("MetaLeft"@) == Some(KeySpec::Exact(Key::MetaLeft)),
        bindings::spec_named("MetaRight"@) == Some(KeySpec::Exact(Key::MetaRight)),
        bindings::spec_named("NumLock"@) == Some(KeySpec::Exact(Key::NumLock)),
        bindings::spec_named("PageDown"@) == Some(KeySpec::Exact(Key::PageDown)),
        bindings::spec_named("PageUp"@) == Some(KeySpec::Exact(Key::PageUp)),
        bindings::spec_named("Pause"@) == Some(KeySpec::Exact(Key::Pause)),
        bindings::spec_named("PrintScreen"@) == Some(KeySpec::Exact(Key::PrintScreen)),
        bindings::spec_named("Return"@) == Some(KeySpec::Exact(Key::Return)),
        bindings::spec_named("RightArrow"@) == Some(KeySpec::Exact(Key::RightArrow)),
        bindings::spec_named("ScrollLock"@) == Some(KeySpec::Exact(Key::ScrollLock)),
        bindings::spec_named("ShiftLeft"@) == Some(KeySpec::Exact(Key::ShiftLeft)),
{
    lemma_outlines();
    reveal_strlit("F9");
    reveal_strlit("f9");
    assert(text::ascii_lower_text("F9"@) =~= "f9"@);
    reveal_strlit("F10");
    reveal_strlit("f10");
    assert(text::ascii_lower_text("F10"@) =~= "f10"@);
    reveal_strlit("F11");
    reveal_strlit("f11");
    assert(text::ascii_lower_text("F11"@) =~= "f11"@);
    reveal_strlit("F12");
    reveal_strlit("f12");
    assert(text::ascii_lower_text("F12"@) =~= "f12"@);
    reveal_strlit("Home");
    reveal_strlit("home");
    assert(text::ascii_lower_text("Home"@) =~= "home"@);
    reveal_strlit("Insert");
    reveal_strlit("insert");
    assert(text::ascii_lower_text("Insert"@) =~= "insert"@);
    reveal_strlit("LeftArrow");
    reveal_strlit("leftarrow");
    assert(text::ascii_lower_text("LeftArrow"@) =~= "leftarrow"@);
    reveal_strlit("MetaLeft");
    reveal_strlit("metaleft");
    assert(text::ascii_lower_text("MetaLeft"@) =~= "metaleft"@);
    reveal_strlit("MetaRight");
    reveal_strlit("metaright");
    assert(text::ascii_lower_text("MetaRight"@) =~= "metaright"@);
    reveal_strlit("NumLock");
    reveal_strlit("numlock");
    assert(text::ascii_lower_text("NumLock"@) =~= "numlock"@);
    reveal_strlit("PageDown");
    reveal_strlit("pagedown");
    assert(text::ascii_lower_text("PageDown"@) =~= "pagedown"@);
    reveal_strlit("PageUp");
    reveal_strlit("pageup");
    assert(text::ascii_lower_text("PageUp"@) =~= "pageup"@);
    reveal_strlit("Pause");
    reveal_strlit("pause");
    assert(text::ascii_lower_text("Pause"@) =~= "pause"@);
    reveal_strlit("PrintScreen");
    reveal_strlit("printscreen");
    assert(text::ascii_lower_text("PrintScreen"@) =~= "printscreen"@);
    reveal_strlit("Return");
    reveal_strlit("return");
    assert(text::ascii_lower_text("Return"@) =~= "return"@);
    reveal_strlit("RightArrow");
    reveal_strlit("rightarrow");
    assert(text::ascii_lower_text("RightArrow"@) =~= "rightarrow"@);
    reveal_strlit("ScrollLock");
    reveal_strlit("scrolllock");
    assert(text::ascii_lower_text("ScrollLock"@) =~= "scrolllock"@);
    reveal_strlit("ShiftLeft");
    reveal_strlit("shiftleft");
    assert(text::ascii_lower_text("ShiftLeft"@) =~= "shiftleft"@);
}

proof fn lemma_third_keys()
    ensures
        bindings::spec_named("ShiftRight"@) == Some(KeySpec::Exact(Key::ShiftRight)),
        bindings::spec_named("Space"@) == Some(KeySpec::Exact(Key::Space)),
        bindings::spec_named("Tab"@) == Some(KeySpec::Exact(Key::Tab)),
        bindings::spec_named("UpArrow"@) == Some(KeySpec::Exact(Key::UpArrow)),
        bindings::spec_named("KeyA"@) == Some(KeySpec::Exact(Key::KeyA)),
        bindings::spec_named("KeyB"@) == Some(KeySpec::Exact(Key::KeyB)),
        bindings::spec_named("KeyC"@) == Some(KeySpec::Exact(Key::KeyC)),
        bindings::spec_named("KeyD"@) == Some(KeySpec::Exact(Key::KeyD)),
        bindings::spec_named("KeyE"@) == Some(KeySpec::Exact(Key::KeyE)),
        bindings::spec_named("KeyF"@) == Some(KeySpec::Exact(Key::KeyF)),
        bindings::spec_named("KeyG"@) == Some(KeySpec::Exact(Key::KeyG)),
        bindings::spec_named("KeyH"@) == Some(KeySpec::Exact(Key::KeyH)),
        bindings::spec_named("KeyI"@) == Some(KeySpec::Exact(Key::KeyI)),
        bindings::spec_named("KeyJ"@) == Some(KeySpec::Exact(Key::KeyJ)),
        bindings::spec_named("KeyK"@) == Some(KeySpec::Exact(Key::KeyK)),
        bindings::spec_named("KeyL"@) == Some(KeySpec::Exact(Key::KeyL)),
        bindings::spec_named("KeyM"@) == Some(KeySpec::Exact(Key::KeyM)),
        bindings::spec_named("KeyN"@) == Some(KeySpec::Exact(Key::KeyN)),
{
    lemma_outlines();
    reveal_strlit("ShiftRight");
    reveal_strlit("shiftright");
    assert(text::ascii_lower_text("ShiftRight"@) =~= "shiftright"@);
    reveal_strlit("Space");
    reveal_strlit("space");
    assert(text::ascii_lower_text("Space"@) =~= "space"@);
    reveal_strlit("Tab");
    reveal_strlit("tab");
    assert(text::ascii_lower_text("Tab"@) =~= "tab"@);
    reveal_strlit("UpArrow");
    reveal_strlit("uparrow");
    assert(text::ascii_lower_text("UpArrow"@) =~= "uparrow"@);
    reveal_strlit("KeyA");
    reveal_strlit("keya");
    assert(text::ascii_lower_text("KeyA"@) =~= "keya"@);
    reveal_strlit("KeyB");
    reveal_strlit("keyb");
    assert(text::ascii_lower_text("KeyB"@) =~= "keyb"@);
    reveal_strlit("KeyC");
    reveal_strlit("keyc");
    assert(text::ascii_lower_text("KeyC"@) =~= "keyc"@);
    reveal_strlit("KeyD");
    reveal_strlit("keyd");
    assert(text::ascii_lower_text("KeyD"@) =~= "keyd"@);
    reveal_strlit("KeyE");
    reveal_strlit("keye");
    assert(text::ascii_lower_text("KeyE"@) =~= "keye"@);
    reveal_strlit("KeyF");
    reveal_strlit("keyf");
    assert(text::ascii_lower_text("KeyF"@) =~= "keyf"@);
    reveal_strlit("KeyG");
    reveal_strlit("keyg");
    assert(text::ascii_lower_text("KeyG"@) =~= "keyg"@);
    reveal_strlit("KeyH");
    reveal_strlit("keyh");
    assert(text::ascii_lower_text("KeyH"@) =~= "keyh"@);
    reveal_strlit("KeyI");
    reveal_strlit("keyi");
    assert(text::ascii_lower_text("KeyI"@) =~= "keyi"@);
    reveal_strlit("KeyJ");
    reveal_strlit("keyj");
    assert(text::ascii_lower_text("KeyJ"@) =~= "keyj"@);
    reveal_strlit("KeyK");
    reveal_strlit("keyk");
    assert(text::ascii_lower_text("KeyK"@) =~= "keyk"@);
    reveal_strlit("KeyL");
    reveal_strlit("keyl");
    assert(text::ascii_lower_text("KeyL"@) =~= "keyl"@);
    reveal_strlit("KeyM");
    reveal_strlit("keym");
    assert(text::ascii_lower_text("KeyM"@) =~= "keym"@);
    reveal_strlit("KeyN");
    reveal_strlit("keyn");
    assert(text::ascii_lower_text("KeyN"@) =~= "keyn"@);
}

proof fn lemma_fourth_keys()
    ensures
        bindings::spec_named("KeyO"@) == Some(KeySpec::Exact(Key::KeyO)),
        bindings::spec_named("KeyP"@) == Some(KeySpec::Exact(Key::KeyP)),
        bindings::spec_named("KeyQ"@) == Some(KeySpec::Exact(Key::KeyQ)),
        bindings::spec_named("KeyR"@) == Some(KeySpec::Exact(Key::KeyR)),
        bindings::spec_named("KeyS"@) == Some(KeySpec::Exact(Key::KeyS)),
        bindings::spec_named("KeyT"@) == Some(KeySpec::Exact(Key::KeyT)),
        bindings::spec_named("KeyU"@) == Some(KeySpec::Exact(Key::KeyU)),
        bindings::spec_named("KeyV"@) == Some(KeySpec::Exact(Key::KeyV)),
        bindings::spec_named("KeyW"@) == Some(KeySpec::Exact(Key::KeyW)),
        bindings::spec_named("KeyX"@) == Some(KeySpec::Exact(Key::KeyX)),
        bindings::spec_named("KeyY"@) == Some(KeySpec::Exact(Key::KeyY)),
        bindings::spec_named("KeyZ"@) == Some(KeySpec::Exact(Key::KeyZ)),
        bindings::spec_named("Num0"@) == Some(KeySpec::Exact(Key::Num0)),
        bindings::spec_named("Num1"@) == Some(KeySpec::Exact(Key::Num1)),
        bindings::spec_named("Num2"@) == Some(KeySpec::Exact(Key::Num2)),
        bindings::spec_named("Num3"@) == Some(KeySpec::Exact(Key::Num3)),
        bindings::spec_named("Num4"@) == Some(KeySpec::Exact(Key::Num4)),
        bindings::spec_named("Num5"@) == Some(KeySpec::Exact(Key::Num5)),
{
    lemma_outlines();
    reveal_strlit("KeyO");
    reveal_strlit("keyo");
    assert(text::ascii_lower_text("KeyO"@) =~= "keyo"@);
    reveal_strlit("KeyP");
    reveal_strlit("keyp");
    assert(text::ascii_lower_text("KeyP"@) =~= "keyp"@);
    reveal_strlit("KeyQ");
    reveal_strlit("keyq");
    assert(text::ascii_lower_text("KeyQ"@) =~= "keyq"@);
    reveal_strlit("KeyR");
    reveal_strlit("keyr");
    assert(text::ascii_lower_text("KeyR"@) =~= "keyr"@);
    reveal_strlit("KeyS");
    reveal_strlit("keys");
    assert(text::ascii_lower_text("KeyS"@) =~= "keys"@);
    reveal_strlit("KeyT");
    reveal_strlit("keyt");
    assert(text::ascii_lower_text("KeyT"@) =~= "keyt"@);
    reveal_strlit("KeyU");
    reveal_strlit("keyu");
    assert(text::ascii_lower_text("KeyU"@) =~= "keyu"@);
    reveal_strlit("KeyV");
    reveal_strlit("keyv");
    assert(text::ascii_lower_text("KeyV"@) =~= "keyv"@);
    reveal_strlit("KeyW");
    reveal_strlit("keyw");
    assert(text::ascii_lower_text("KeyW"@) =~= "keyw"@);
    reveal_strlit("KeyX");
    reveal_strlit("keyx");
    assert(text::ascii_lower_text("KeyX"@) =~= "keyx"@);
    reveal_strlit("KeyY");
    reveal_strlit("keyy");
    assert(text::ascii_lower_text("KeyY"@) =~= "keyy"@);
    reveal_strlit("KeyZ");
    reveal_strlit("keyz");
    assert(text::ascii_lower_text("KeyZ"@) =~= "keyz"@);
    reveal_strlit("Num0");
    reveal_strlit("num0");
    assert(text::ascii_lower_text("Num0"@) =~= "num0"@);
    reveal_strlit("Num1");
    reveal_strlit("num1");
    assert(text::ascii_lower_text("Num1"@) =~= "num1"@);
    reveal_strlit("Num2");
    reveal_strlit("num2");
    assert(text::ascii_lower_text("Num2"@) =~= "num2"@);
    reveal_strlit("Num3");
    reveal_strlit("num3");
    assert(text::ascii_lower_text("Num3"@) =~= "num3"@);
    reveal_strlit("Num4");
    reveal_strlit("num4");
    assert(text::ascii_lower_text("Num4"@) =~= "num4"@);
    reveal_strlit("Num5");
    reveal_strlit("num5");
    assert(text::ascii_lower_text("Num5"@) =~= "num5"@);
}

proof fn lemma_fifth_keys()
    ensures
        bindings::spec_named("Num6"@) == Some(KeySpec::Exact(Key::Num6)),
        bindings::spec_named("Num7"@) == Some(KeySpec::Exact(Key::Num7)),
        bindings::spec_named("Num8"@) == Some(KeySpec::Exact(Key::Num8)),
        bindings::spec_named("Num9"@) == Some(KeySpec::Exact(Key::Num9)),
        bindings::spec_named("BackQuote"@) == Some(KeySpec::Exact(Key::BackQuote)),
        bindings::spec_named("Minus"@) == Some(KeySpec::Exact(Key::Minus)),
        bindings::spec_named("Equal"@) == Some(KeySpec::Exact(Key::Equal)),
        bindings::spec_named("LeftBracket"@) == Some(KeySpec::Exact(Key::LeftBracket)),
        bindings::spec_named("RightBracket"@) == Some(KeySpec::Exact(Key::RightBracket)),
        bindings::spec_named("SemiColon"@) == Some(KeySpec::Exact(Key::SemiColon)),
        bindings::spec_named("Quote"@) == Some(KeySpec::Exact(Key::Quote)),
        bindings::spec_named("BackSlash"@) == Some(KeySpec::Exact(Key::BackSlash)),
        bindings::spec_named("IntlBackslash"@) == Some(KeySpec::Exact(Key::IntlBackslash)),
        bindings::spec_named("Comma"@) == Some(KeySpec::Exact(Key::Comma)),
        bindings::spec_named("Dot"@) == Some(KeySpec::Exact(Key::Dot)),
        bindings::spec_named("Slash"@) == Some(KeySpec::Exact(Key::Slash)),
        bindings::spec_named("KpReturn"@) == Some(KeySpec::Exact(Key::KpReturn)),
        bindings::spec_named("KpMinus"@) == Some(KeySpec::Exact(Key::KpMinus)),
{
    lemma_outlines();
    reveal_strlit("Num6");
    reveal_strlit("num6");
    assert(text::ascii_lower_text("Num6"@) =~= "num6"@);
    reveal_strlit("Num7");
    reveal_strlit("num7");
    assert(text::ascii_lower_text("Num7"@) =~= "num7"@);
    reveal_strlit("Num8");
    reveal_strlit("num8");
    assert(text::ascii_lower_text("Num8"@) =~= "num8"@);
    reveal_strlit("Num9");
    reveal_strlit("num9");
    assert(text::ascii_lower_text("Num9"@) =~= "num9"@);
    reveal_strlit("BackQuote");
    reveal_strlit("backquote");
    assert(text::ascii_lower_text("BackQuote"@) =~= "backquote"@);
    reveal_strlit("Minus");
    reveal_strlit("minus");
    assert(text::ascii_lower_text("Minus"@) =~= "minus"@);
    reveal_strlit("Equal");
    reveal_strlit("equal");
    assert(text::ascii_lower_text("Equal"@) =~= "equal"@);
    reveal_strlit("LeftBracket");
    reveal_strlit("leftbracket");
    assert(text::ascii_lower_text("LeftBracket"@) =~= "leftbracket"@);
    reveal_strlit("RightBracket");
    reveal_strlit("rightbracket");
    assert(text::ascii_lower_text("RightBracket"@) =~= "rightbracket"@);
    reveal_strlit("SemiColon");
    reveal_strlit("semicolon");
    assert(text::ascii_lower_text("SemiColon"@) =~= "semicolon"@);
    reveal_strlit("Quote");
    reveal_strlit("quote");
    assert(text::ascii_lower_text("Quote"@) =~= "quote"@);
    reveal_strlit("BackSlash");
    reveal_strlit("backslash");
    assert(text::ascii_lower_text("BackSlash"@) =~= "backslash"@);
    reveal_strlit("IntlBackslash");
    reveal_strlit("intlbackslash");
    assert(text::ascii_lower_text("IntlBackslash"@) =~= "intlbackslash"@);
    reveal_strlit("Comma");
    reveal_strlit("comma");
    assert(text::ascii_lower_text("Comma"@) =~= "comma"@);
    reveal_strlit("Dot");
    reveal_strlit("dot");
    assert(text::ascii_lower_text("Dot"@) =~= "dot"@);
    reveal_strlit("Slash");
    reveal_strlit("slash");
    assert(text::ascii_lower_text("Slash"@) =~= "slash"@);
    reveal_strlit("KpReturn");
    reveal_strlit("kpreturn");
    assert(text::ascii_lower_text("KpReturn"@) =~= "kpreturn"@);
    reveal_strlit("KpMinus");
    reveal_strlit("kpminus");
    assert(text::ascii_lower_text("KpMinus"@) =~= "kpminus"@);
}

proof fn lemma_sixth_keys()
    ensures
        bindings::spec_named("KpPlus"@) == Some(KeySpec::Exact(Key::KpPlus)),
        bindings::spec_named("KpMultiply"@) == Some(KeySpec::Exact(Key::KpMultiply)),
        bindings::spec_named("KpDivide"@) == Some(KeySpec::Exact(Key::KpDivide)),
        bindings::spec_named("Kp0"@) == Some(KeySpec::Exact(Key::Kp0)),
        bindings::spec_named("Kp1"@) == Some(KeySpec::Exact(Key::Kp1)),
        bindings::spec_named("Kp2"@) == Some(KeySpec::Exact(Key::Kp2)),
        bindings::spec_named("Kp3"@) == Some(KeySpec::Exact(Key::Kp3)),
        bindings::spec_named("Kp4"@) == Some(KeySpec::Exact(Key::Kp4)),
        bindings::spec_named("Kp5"@) == Some(KeySpec::Exact(Key::Kp5)),
        bindings::spec_named("Kp6"@) == Some(KeySpec::Exact(Key::Kp6)),
        bindings::spec_named("Kp7"@) == Some(KeySpec::Exact(Key::Kp7)),
        bindings::spec_named("Kp8"@) == Some(KeySpec::Exact(Key::Kp8)),
        bindings::spec_named("Kp9"@) == Some(KeySpec::Exact(Key::Kp9)),
        bindings::spec_named("KpDelete"@) == Some(KeySpec::Exact(Key::KpDelete)),
        bindings::spec_named("Function"@) == Some(KeySpec::Exact(Key::Function)),
{
    lemma_outlines();
    reveal_strlit("KpPlus");
    reveal_strlit("kpplus");
    assert(text::ascii_lower_text("KpPlus"@) =~= "kpplus"@);
    reveal_strlit("KpMultiply");
    reveal_strlit("kpmultiply");
    assert(text::ascii_lower_text("KpMultiply"@) =~= "kpmultiply"@);
    reveal_strlit("KpDivide");
    reveal_strlit("kpdivide");
    assert(text::ascii_lower_text("KpDivide"@) =~= "kpdivide"@);
    reveal_strlit("Kp0");
    reveal_strlit("kp0");
    assert(text::ascii_lower_text("Kp0"@) =~= "kp0"@);
    reveal_strlit("Kp1");
    reveal_strlit("kp1");
    assert(text::ascii_lower_text("Kp1"@) =~= "kp1"@);
    reveal_strlit("Kp2");
    reveal_strlit("kp2");
    assert(text::ascii_lower_text("Kp2"@) =~= "kp2"@);
    reveal_strlit("Kp3");
    reveal_strlit("kp3");
    assert(text::ascii_lower_text("Kp3"@) =~= "kp3"@);
    reveal_strlit("Kp4");
    reveal_strlit("kp4");
    assert(text::ascii_lower_text("Kp4"@) =~= "kp4"@);
    reveal_strlit("Kp5");
    reveal_strlit("kp5");
    assert(text::ascii_lower_text("Kp5"@) =~= "kp5"@);
    reveal_strlit("Kp6");
    reveal_strlit("kp6");
    assert(text::ascii_lower_text("Kp6"@) =~= "kp6"@);
    reveal_strlit("Kp7");
    reveal_strlit("kp7");
    assert(text::ascii_lower_text("Kp7"@) =~= "kp7"@);
    reveal_strlit("Kp8");
    reveal_strlit("kp8");
    assert(text::ascii_lower_text("Kp8"@) =~= "kp8"@);
    reveal_strlit("Kp9");
    reveal_strlit("kp9");
    assert(text::ascii_lower_text("Kp9"@) =~= "kp9"@);
    reveal_strlit("KpDelete");
    reveal_strlit("kpdelete");
    assert(text::ascii_lower_text("KpDelete"@) =~= "kpdelete"@);
    reveal_strlit("Function");
    reveal_strlit("function");
    assert(text::ascii_lower_text("Function"@) =~= "function"@);
}

proof fn lemma_families()
    ensures
        bindings::spec_named("Control"@) == Some(KeySpec::Family(ModFamily::Control)),
        bindings::spec_named("Meta"@) == Some(KeySpec::Family(ModFamily::Meta)),
        bindings::spec_named("Alt"@) == Some(KeySpec::Family(ModFamily::Alt)),
        bindings::spec_named("Shift"@) == Some(KeySpec::Family(ModFamily::Shift)),
{
    lemma_outlines();
    reveal_strlit("Control");
    reveal_strlit("control");
    assert(text::ascii_lower_text("Control"@) =~= "control"@);
    reveal_strlit("Meta");
    reveal_strlit("meta");
    assert(text::ascii_lower_text("Meta"@) =~= "meta"@);
    reveal_strlit("Alt");
    reveal_strlit("alt");
    assert(text::ascii_lower_text("Alt"@) =~= "alt"@);
    reveal_strlit("Shift");
    reveal_strlit("shift");
    assert(text::ascii_lower_text("Shift"@) =~= "shift"@);
}

/// Reading a specification back from its configuration name gives the
/// specification itself. Two are left out: the name of the left Alt key is that
/// of its family, and a key without a name cannot be written at all.
pub proof fn law_spec_names_are_read_back(spec: KeySpec)
    requires
        spec != KeySpec::Exact(Key::Alt),
        !(spec matches KeySpec::Exact(Key::Unknown(_))),
    ensures
        bindings::spec_named(spec.name()) == Some(spec),
{
    lemma_families();
    lemma_first_keys();
    lemma_second_keys();
    lemma_third_keys();
    lemma_fourth_keys();
    lemma_fifth_keys();
    lemma_sixth_keys();
}

/// A key that is recorded for a shortcut, once written and read back, is what
/// the shortcut asks for; where sides are told apart it asks for that side
/// alone, except that the left Alt key has no name but that of its family.
pub proof fn law_recorded_keys_bind_themselves(key: Key, sides: bool)
    requires
        key != Key::Escape,
        !(key matches Key::Unknown(_)),
    ensures
        match capture::single_end(CaptureEvent::Raw(RawEvent::KeyPress(key)), sides) {
            Some(Ok(name)) => {
                &&& bindings::spec_named(name) matches Some(spec) && spec.accepts(key)
                &&& sides && key != Key::Alt ==> bindings::spec_named(name) == Some(
                    KeySpec::Exact(key),
                )
            },
            _ => false,
        },
{
    lemma_families();
    match capture::modifier_for(key, sides) {
        Some(m) => {
            if m != KeySpec::Exact(Key::Alt) {
                law_spec_names_are_read_back(m);
            }
        },
        None => {
            law_spec_names_are_read_back(KeySpec::Exact(key));
        },
    }
}

} // verus!
