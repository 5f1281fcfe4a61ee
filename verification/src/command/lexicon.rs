//! The command lexicon: which phrases stand for actions, modifiers, keys, or nothing.
//!
//! The user's entries come before the built-in ones, and so take their place
//! wherever both would match.
use crate::command::combo;
use crate::command::combo::{KeyCombo, Modifier, ParsedCommand};
use crate::config::command::{
    CommandActionEntry, CommandHomophoneEntry, CommandKeyEntry, CommandModifierEntry,
    CommandStopEntry,
};
use crate::config::CommandConfig;
use crate::text;
use vstd::prelude::*;

verus! {

/// What a phrase of the lexicon means.
#[derive(Debug)]
pub enum LexOwned {
    Action(ParsedCommand),
    Mod(Modifier),
    Key(String),
    Stop,
}

/// What a [`LexOwned`] stands for.
#[verifier::ext_equal]
pub enum Meaning {
    Action(combo::CommandView),
    Mod(Modifier),
    Key(Seq<char>),
    Stop,
}

impl View for LexOwned {
    type V = Meaning;

    open spec fn view(&self) -> Meaning {
        match self {
            LexOwned::Action(c) => Meaning::Action(c@),
            LexOwned::Mod(m) => Meaning::Mod(*m),
            LexOwned::Key(k) => Meaning::Key(k@),
            LexOwned::Stop => Meaning::Stop,
        }
    }
}

/// One phrase of the lexicon, as characters, and its meaning.
#[derive(Debug)]
pub struct LexEntry {
    pub phrase: Vec<char>,
    pub meaning: LexOwned,
}

/// What a [`LexEntry`] stands for.
#[verifier::ext_equal]
pub struct Entry {
    pub phrase: Seq<char>,
    pub meaning: Meaning,
}

impl View for LexEntry {
    type V = Entry;

    open spec fn view(&self) -> Entry {
        Entry { phrase: self.phrase@, meaning: self.meaning@ }
    }
}

pub open spec fn entries(v: Seq<LexEntry>) -> Seq<Entry> {
    v.map_values(|e: LexEntry| e@)
}

/// The phrases that commands are read by.
#[derive(Debug)]
pub struct Lexicon {
    /// The user's entries, then the built-in ones.
    pub main: Vec<LexEntry>,
    /// Ideographs that sound like letters; looked up in the second round only.
    pub homophones: Vec<LexEntry>,
}

/// What a [`Lexicon`] stands for.
#[verifier::ext_equal]
pub struct LexiconView {
    pub main: Seq<Entry>,
    pub homophones: Seq<Entry>,
}

impl View for Lexicon {
    type V = LexiconView;

    open spec fn view(&self) -> LexiconView {
        LexiconView { main: entries(self.main@), homophones: entries(self.homophones@) }
    }
}

// ---------------------------------------------------------------------------
// The built-in entries
// ---------------------------------------------------------------------------

pub open spec fn act(phrase: Seq<char>, modifiers: Seq<Modifier>, key: Seq<char>) -> Entry {
    Entry {
        phrase,
        meaning: Meaning::Action(combo::CommandView::Combo(combo::ComboView { modifiers, key })),
    }
}

pub open spec fn modifier(phrase: Seq<char>, modifier: Modifier) -> Entry {
    Entry { phrase, meaning: Meaning::Mod(modifier) }
}

pub open spec fn key(phrase: Seq<char>, name: Seq<char>) -> Entry {
    Entry { phrase, meaning: Meaning::Key(name) }
}

pub open spec fn stop(phrase: Seq<char>) -> Entry {
    Entry { phrase, meaning: Meaning::Stop }
}

/// Phrases for whole combinations.
pub open spec fn builtin_actions() -> Seq<Entry> {
    seq![
        act("复制"@, seq![Modifier::Command], "C"@),
        act("拷贝"@, seq![Modifier::Command], "C"@),
        act("copy"@, seq![Modifier::Command], "C"@),
        act("粘贴"@, seq![Modifier::Command], "V"@),
        act("黏贴"@, seq![Modifier::Command], "V"@),
        act("paste"@, seq![Modifier::Command], "V"@),
        act("剪切"@, seq![Modifier::Command], "X"@),
        act("cut"@, seq![Modifier::Command], "X"@),
        act("撤销"@, seq![Modifier::Command], "Z"@),
        act("undo"@, seq![Modifier::Command], "Z"@),
        act("重做"@, seq![Modifier::Shift, Modifier::Command], "Z"@),
        act("redo"@, seq![Modifier::Shift, Modifier::Command], "Z"@),
        act("全选"@, seq![Modifier::Command], "A"@),
        act("保存"@, seq![Modifier::Command], "S"@),
        act("save"@, seq![Modifier::Command], "S"@),
    ]
}

/// Phrases for modifier keys.
pub open spec fn builtin_modifiers() -> Seq<Entry> {
    seq![
        modifier("shift"@, Modifier::Shift),
        modifier("换挡"@, Modifier::Shift),
        modifier("上档"@, Modifier::Shift),
        modifier("command"@, Modifier::Command),
        modifier("cmd"@, Modifier::Command),
        modifier("meta"@, Modifier::Command),
        modifier("命令"@, Modifier::Command),
        modifier("control"@, Modifier::Control),
        modifier("ctrl"@, Modifier::Control),
        modifier("控制"@, Modifier::Control),
        modifier("option"@, Modifier::Option),
        modifier("opt"@, Modifier::Option),
        modifier("alt"@, Modifier::Option),
        modifier("选项"@, Modifier::Option),
    ]
}

/// Phrases for named keys.
pub open spec fn builtin_keys() -> Seq<Entry> {
    seq![
        key("enter"@, "ENTER"@),
        key("return"@, "ENTER"@),
        key("回车"@, "ENTER"@),
        key("换行"@, "ENTER"@),
        key("确认"@, "ENTER"@),
        key("发送"@, "ENTER"@),
        key("space"@, "SPACE"@),
        key("空格"@, "SPACE"@),
        key("tab"@, "TAB"@),
        key("制表"@, "TAB"@),
        key("esc"@, "ESC"@),
        key("escape"@, "ESC"@),
        key("逃逸"@, "ESC"@),
        key("delete"@, "DELETE"@),
        key("backspace"@, "DELETE"@),
        key("退格"@, "DELETE"@),
        key("删除"@, "DELETE"@),
        key("up"@, "UP"@),
        key("down"@, "DOWN"@),
        key("left"@, "LEFT"@),
        key("right"@, "RIGHT"@),
        key("方向键上"@, "UP"@),
        key("方向键下"@, "DOWN"@),
        key("方向键左"@, "LEFT"@),
        key("方向键右"@, "RIGHT"@),
        key("方向上"@, "UP"@),
        key("方向下"@, "DOWN"@),
        key("方向左"@, "LEFT"@),
        key("方向右"@, "RIGHT"@),
        key("上箭头"@, "UP"@),
        key("下箭头"@, "DOWN"@),
        key("左箭头"@, "LEFT"@),
        key("右箭头"@, "RIGHT"@),
        key("f1"@, "F1"@),
        key("f2"@, "F2"@),
        key("f3"@, "F3"@),
        key("f4"@, "F4"@),
        key("f5"@, "F5"@),
        key("f6"@, "F6"@),
        key("f7"@, "F7"@),
        key("f8"@, "F8"@),
        key("f9"@, "F9"@),
        key("f10"@, "F10"@),
        key("f11"@, "F11"@),
        key("f12"@, "F12"@),
    ]
}

/// Chinese numerals: 一 is the digit, not a letter that sounds like it.
pub open spec fn builtin_digits() -> Seq<Entry> {
    seq![
        key("一"@, "1"@),
        key("二"@, "2"@),
        key("三"@, "3"@),
        key("四"@, "4"@),
        key("五"@, "5"@),
        key("六"@, "6"@),
        key("七"@, "7"@),
        key("八"@, "8"@),
        key("九"@, "9"@),
        key("零"@, "0"@),
    ]
}

/// Filler words and connectives.
pub open spec fn builtin_stops() -> Seq<Entry> {
    seq![
        stop("按一下"@),
        stop("按下"@),
        stop("按"@),
        stop("帮我"@),
        stop("请"@),
        stop("按键"@),
        stop("按钮"@),
        stop("键"@),
        stop("一下"@),
        stop("来"@),
        stop("个"@),
        stop("输入"@),
        stop("执行"@),
        stop("模拟"@),
        stop("组合键"@),
        stop("组合"@),
        stop("加"@),
        stop("和"@),
        stop("与"@),
        stop("杠"@),
        stop("plus"@),
    ]
}

/// Ideographs that stand for the letters they sound like.
pub open spec fn builtin_homophones() -> Seq<Entry> {
    seq![
        key("哎"@, "A"@),
        key("比"@, "B"@),
        key("逼"@, "B"@),
        key("西"@, "C"@),
        key("弟"@, "D"@),
        key("意"@, "E"@),
        key("依"@, "E"@),
        key("记"@, "G"@),
        key("爱"@, "I"@),
        key("勾"@, "J"@),
        key("凯"@, "K"@),
        key("艾姆"@, "M"@),
        key("恩"@, "N"@),
        key("欧"@, "O"@),
        key("批"@, "P"@),
        key("球"@, "Q"@),
        key("阿尔"@, "R"@),
        key("丝"@, "S"@),
        key("替"@, "T"@),
        key("优"@, "U"@),
        key("威"@, "V"@),
        key("微"@, "V"@),
        key("达不溜"@, "W"@),
        key("叉"@, "X"@),
        key("歪"@, "Y"@),
        key("贼"@, "Z"@),
    ]
}

pub open spec fn builtin_main() -> Seq<Entry> {
    builtin_actions() + builtin_modifiers() + builtin_keys() + builtin_digits() + builtin_stops()
}

fn push_entry(v: &mut Vec<LexEntry>, phrase: &str, meaning: LexOwned)
    ensures
        entries(final(v)@) == entries(old(v)@).push(Entry { phrase: phrase@, meaning: meaning@ }),
{
    let e = LexEntry { phrase: text::chars_of(phrase), meaning };
    v.push(e);
    assert(entries(v@) =~= entries(old(v)@).push(e@));
}

fn push_action(v: &mut Vec<LexEntry>, phrase: &str, modifiers: Vec<Modifier>, name: &str)
    ensures
        entries(final(v)@) == entries(old(v)@).push(act(phrase@, modifiers@, name@)),
{
    push_entry(
        v,
        phrase,
        LexOwned::Action(ParsedCommand::Combo(KeyCombo { modifiers, key: name.to_string() })),
    );
}

fn push_cmd(v: &mut Vec<LexEntry>, phrase: &str, name: &str)
    ensures
        entries(final(v)@) == entries(old(v)@).push(
            act(phrase@, seq![Modifier::Command], name@),
        ),
{
    let modifiers = vec![Modifier::Command];
    assert(modifiers@ =~= seq![Modifier::Command]);
    push_action(v, phrase, modifiers, name);
}

fn push_shift_cmd(v: &mut Vec<LexEntry>, phrase: &str, name: &str)
    ensures
        entries(final(v)@) == entries(old(v)@).push(
            act(phrase@, seq![Modifier::Shift, Modifier::Command], name@),
        ),
{
    let modifiers = vec![Modifier::Shift, Modifier::Command];
    assert(modifiers@ =~= seq![Modifier::Shift, Modifier::Command]);
    push_action(v, phrase, modifiers, name);
}

fn push_modifier(v: &mut Vec<LexEntry>, phrase: &str, m: Modifier)
    ensures
        entries(final(v)@) == entries(old(v)@).push(modifier(phrase@, m)),
{
    push_entry(v, phrase, LexOwned::Mod(m));
}

fn push_key(v: &mut Vec<LexEntry>, phrase: &str, name: &str)
    ensures
        entries(final(v)@) == entries(old(v)@).push(key(phrase@, name@)),
{
    push_entry(v, phrase, LexOwned::Key(name.to_string()));
}

fn push_stop(v: &mut Vec<LexEntry>, phrase: &str)
    ensures
        entries(final(v)@) == entries(old(v)@).push(stop(phrase@)),
{
    push_entry(v, phrase, LexOwned::Stop);
}

fn action_entries() -> (v: Vec<LexEntry>)
    ensures
        entries(v@) == builtin_actions(),
{
    let mut v: Vec<LexEntry> = Vec::new();
    assert(entries(v@) =~= Seq::<Entry>::empty());
    push_cmd(&mut v, "复制", "C");
    push_cmd(&mut v, "拷贝", "C");
    push_cmd(&mut v, "copy", "C");
    push_cmd(&mut v, "粘贴", "V");
    push_cmd(&mut v, "黏贴", "V");
    push_cmd(&mut v, "paste", "V");
    push_cmd(&mut v, "剪切", "X");
    push_cmd(&mut v, "cut", "X");
    push_cmd(&mut v, "撤销", "Z");
    push_cmd(&mut v, "undo", "Z");
    push_shift_cmd(&mut v, "重做", "Z");
    push_shift_cmd(&mut v, "redo", "Z");
    push_cmd(&mut v, "全选", "A");
    push_cmd(&mut v, "保存", "S");
    push_cmd(&mut v, "save", "S");
    v
}

fn modifier_entries() -> (v: Vec<LexEntry>)
    ensures
        entries(v@) == builtin_modifiers(),
{
    let mut v: Vec<LexEntry> = Vec::new();
    assert(entries(v@) =~= Seq::<Entry>::empty());
    push_modifier(&mut v, "shift", Modifier::Shift);
    push_modifier(&mut v, "换挡", Modifier::Shift);
    push_modifier(&mut v, "上档", Modifier::Shift);
    push_modifier(&mut v, "command", Modifier::Command);
    push_modifier(&mut v, "cmd", Modifier::Command);
    push_modifier(&mut v, "meta", Modifier::Command);
    push_modifier(&mut v, "命令", Modifier::Command);
    push_modifier(&mut v, "control", Modifier::Control);
    push_modifier(&mut v, "ctrl", Modifier::Control);
    push_modifier(&mut v, "控制", Modifier::Control);
    push_modifier(&mut v, "option", Modifier::Option);
    push_modifier(&mut v, "opt", Modifier::Option);
    push_modifier(&mut v, "alt", Modifier::Option);
    push_modifier(&mut v, "选项", Modifier::Option);
    v
}

fn key_entries() -> (v: Vec<LexEntry>)
    ensures
        entries(v@) == builtin_keys(),
{
    let mut v: Vec<LexEntry> = Vec::new();
    assert(entries(v@) =~= Seq::<Entry>::empty());
    push_key(&mut v, "enter", "ENTER");
    push_key(&mut v, "return", "ENTER");
    push_key(&mut v, "回车", "ENTER");
    push_key(&mut v, "换行", "ENTER");
    push_key(&mut v, "确认", "ENTER");
    push_key(&mut v, "发送", "ENTER");
    push_key(&mut v, "space", "SPACE");
    push_key(&mut v, "空格", "SPACE");
    push_key(&mut v, "tab", "TAB");
    push_key(&mut v, "制表", "TAB");
    push_key(&mut v, "esc", "ESC");
    push_key(&mut v, "escape", "ESC");
    push_key(&mut v, "逃逸", "ESC");
    push_key(&mut v, "delete", "DELETE");
    push_key(&mut v, "backspace", "DELETE");
    push_key(&mut v, "退格", "DELETE");
    push_key(&mut v, "删除", "DELETE");
    push_key(&mut v, "up", "UP");
    push_key(&mut v, "down", "DOWN");
    push_key(&mut v, "left", "LEFT");
    push_key(&mut v, "right", "RIGHT");
    push_key(&mut v, "方向键上", "UP");
    push_key(&mut v, "方向键下", "DOWN");
    push_key(&mut v, "方向键左", "LEFT");
    push_key(&mut v, "方向键右", "RIGHT");
    push_key(&mut v, "方向上", "UP");
    push_key(&mut v, "方向下", "DOWN");
    push_key(&mut v, "方向左", "LEFT");
    push_key(&mut v, "方向右", "RIGHT");
    push_key(&mut v, "上箭头", "UP");
    push_key(&mut v, "下箭头", "DOWN");
    push_key(&mut v, "左箭头", "LEFT");
    push_key(&mut v, "右箭头", "RIGHT");
    push_key(&mut v, "f1", "F1");
    push_key(&mut v, "f2", "F2");
    push_key(&mut v, "f3", "F3");
    push_key(&mut v, "f4", "F4");
    push_key(&mut v, "f5", "F5");
    push_key(&mut v, "f6", "F6");
    push_key(&mut v, "f7", "F7");
    push_key(&mut v, "f8", "F8");
    push_key(&mut v, "f9", "F9");
    push_key(&mut v, "f10", "F10");
    push_key(&mut v, "f11", "F11");
    push_key(&mut v, "f12", "F12");
    v
}

fn digit_entries() -> (v: Vec<LexEntry>)
    ensures
        entries(v@) == builtin_digits(),
{
    let mut v: Vec<LexEntry> = Vec::new();
    assert(entries(v@) =~= Seq::<Entry>::empty());
    push_key(&mut v, "一", "1");
    push_key(&mut v, "二", "2");
    push_key(&mut v, "三", "3");
    push_key(&mut v, "四", "4");
    push_key(&mut v, "五", "5");
    push_key(&mut v, "六", "6");
    push_key(&mut v, "七", "7");
    push_key(&mut v, "八", "8");
    push_key(&mut v, "九", "9");
    push_key(&mut v, "零", "0");
    v
}

fn stop_entries() -> (v: Vec<LexEntry>)
    ensures
        entries(v@) == builtin_stops(),
{
    let mut v: Vec<LexEntry> = Vec::new();
    assert(entries(v@) =~= Seq::<Entry>::empty());
    push_stop(&mut v, "按一下");
    push_stop(&mut v, "按下");
    push_stop(&mut v, "按");
    push_stop(&mut v, "帮我");
    push_stop(&mut v, "请");
    push_stop(&mut v, "按键");
    push_stop(&mut v, "按钮");
    push_stop(&mut v, "键");
    push_stop(&mut v, "一下");
    push_stop(&mut v, "来");
    push_stop(&mut v, "个");
    push_stop(&mut v, "输入");
    push_stop(&mut v, "执行");
    push_stop(&mut v, "模拟");
    push_stop(&mut v, "组合键");
    push_stop(&mut v, "组合");
    push_stop(&mut v, "加");
    push_stop(&mut v, "和");
    push_stop(&mut v, "与");
    push_stop(&mut v, "杠");
    push_stop(&mut v, "plus");
    v
}

fn homophone_entries() -> (v: Vec<LexEntry>)
    ensures
        entries(v@) == builtin_homophones(),
{
    let mut v: Vec<LexEntry> = Vec::new();
    assert(entries(v@) =~= Seq::<Entry>::empty());
    push_key(&mut v, "哎", "A");
    push_key(&mut v, "比", "B");
    push_key(&mut v, "逼", "B");
    push_key(&mut v, "西", "C");
    push_key(&mut v, "弟", "D");
    push_key(&mut v, "意", "E");
    push_key(&mut v, "依", "E");
    push_key(&mut v, "记", "G");
    push_key(&mut v, "爱", "I");
    push_key(&mut v, "勾", "J");
    push_key(&mut v, "凯", "K");
    push_key(&mut v, "艾姆", "M");
    push_key(&mut v, "恩", "N");
    push_key(&mut v, "欧", "O");
    push_key(&mut v, "批", "P");
    push_key(&mut v, "球", "Q");
    push_key(&mut v, "阿尔", "R");
    push_key(&mut v, "丝", "S");
    push_key(&mut v, "替", "T");
    push_key(&mut v, "优", "U");
    push_key(&mut v, "威", "V");
    push_key(&mut v, "微", "V");
    push_key(&mut v, "达不溜", "W");
    push_key(&mut v, "叉", "X");
    push_key(&mut v, "歪", "Y");
    push_key(&mut v, "贼", "Z");
    v
}

fn append_entries(v: &mut Vec<LexEntry>, mut more: Vec<LexEntry>)
    ensures
        entries(final(v)@) == entries(old(v)@) + entries(more@),
{
    let ghost tail = more@;
    v.append(&mut more);
    assert(entries(v@) =~= entries(old(v)@) + entries(tail));
}

fn add_builtin_main(v: &mut Vec<LexEntry>)
    ensures
        entries(final(v)@) == entries(old(v)@) + builtin_main(),
{
    append_entries(v, action_entries());
    append_entries(v, modifier_entries());
    append_entries(v, key_entries());
    append_entries(v, digit_entries());
    append_entries(v, stop_entries());
    assert(entries(v@) =~= entries(old(v)@) + builtin_main());
}

// ---------------------------------------------------------------------------
// The user's entries
// ---------------------------------------------------------------------------

pub open spec fn user_actions(cfg: CommandConfig) -> Seq<Entry> {
    cfg.action@.map_values(
        |a: CommandActionEntry| Entry { phrase: a.phrase@, meaning: Meaning::Action(a.meaning()) },
    )
}

pub open spec fn user_modifiers(cfg: CommandConfig) -> Seq<Entry> {
    cfg.modifier@.map_values(|m: CommandModifierEntry| modifier(m.phrase@, m.modifier))
}

pub open spec fn user_keys(cfg: CommandConfig) -> Seq<Entry> {
    cfg.key@.map_values(|k: CommandKeyEntry| key(k.phrase@, k.name@))
}

pub open spec fn user_stops(cfg: CommandConfig) -> Seq<Entry> {
    cfg.stop@.map_values(|s: CommandStopEntry| stop(s.phrase@))
}

pub open spec fn user_homophones(cfg: CommandConfig) -> Seq<Entry> {
    cfg.homophone@.map_values(|h: CommandHomophoneEntry| key(h.phrase@, h.letter@))
}

pub open spec fn user_main(cfg: CommandConfig) -> Seq<Entry> {
    user_actions(cfg) + user_modifiers(cfg) + user_keys(cfg) + user_stops(cfg)
}

fn user_action_entries(cfg: &CommandConfig) -> (v: Vec<LexEntry>)
    ensures
        entries(v@) == user_actions(*cfg),
{
    let mut v: Vec<LexEntry> = Vec::new();
    for i in 0..cfg.action.len()
        invariant
            entries(v@) == user_actions(*cfg).take(i as int),
    {
        let a = &cfg.action[i];
        push_entry(&mut v, &a.phrase, LexOwned::Action(a.command()));
        assert(user_actions(*cfg).take(i + 1) == user_actions(*cfg).take(i as int).push(
            user_actions(*cfg)[i as int],
        ));
    }
    v
}

fn user_modifier_entries(cfg: &CommandConfig) -> (v: Vec<LexEntry>)
    ensures
        entries(v@) == user_modifiers(*cfg),
{
    let mut v: Vec<LexEntry> = Vec::new();
    for i in 0..cfg.modifier.len()
        invariant
            entries(v@) == user_modifiers(*cfg).take(i as int),
    {
        push_modifier(&mut v, &cfg.modifier[i].phrase, cfg.modifier[i].modifier);
        assert(user_modifiers(*cfg).take(i + 1) == user_modifiers(*cfg).take(i as int).push(
            user_modifiers(*cfg)[i as int],
        ));
    }
    v
}

fn user_key_entries(cfg: &CommandConfig) -> (v: Vec<LexEntry>)
    ensures
        entries(v@) == user_keys(*cfg),
{
    let mut v: Vec<LexEntry> = Vec::new();
    for i in 0..cfg.key.len()
        invariant
            entries(v@) == user_keys(*cfg).take(i as int),
    {
        push_key(&mut v, &cfg.key[i].phrase, &cfg.key[i].name);
        assert(user_keys(*cfg).take(i + 1) == user_keys(*cfg).take(i as int).push(
            user_keys(*cfg)[i as int],
        ));
    }
    v
}

fn user_stop_entries(cfg: &CommandConfig) -> (v: Vec<LexEntry>)
    ensures
        entries(v@) == user_stops(*cfg),
{
    let mut v: Vec<LexEntry> = Vec::new();
    for i in 0..cfg.stop.len()
        invariant
            entries(v@) == user_stops(*cfg).take(i as int),
    {
        push_stop(&mut v, &cfg.stop[i].phrase);
        assert(user_stops(*cfg).take(i + 1) == user_stops(*cfg).take(i as int).push(
            user_stops(*cfg)[i as int],
        ));
    }
    v
}

fn user_homophone_entries(cfg: &CommandConfig) -> (v: Vec<LexEntry>)
    ensures
        entries(v@) == user_homophones(*cfg),
{
    let mut v: Vec<LexEntry> = Vec::new();
    for i in 0..cfg.homophone.len()
        invariant
            entries(v@) == user_homophones(*cfg).take(i as int),
    {
        push_key(&mut v, &cfg.homophone[i].phrase, &cfg.homophone[i].letter);
        assert(user_homophones(*cfg).take(i + 1) == user_homophones(*cfg).take(i as int).push(
            user_homophones(*cfg)[i as int],
        ));
    }
    v
}

fn add_user_entries(main: &mut Vec<LexEntry>, homophones: &mut Vec<LexEntry>, cfg: &CommandConfig)
    ensures
        entries(final(main)@) == entries(old(main)@) + user_main(*cfg),
        entries(final(homophones)@) == entries(old(homophones)@) + user_homophones(*cfg),
{
    append_entries(main, user_action_entries(cfg));
    append_entries(main, user_modifier_entries(cfg));
    append_entries(main, user_key_entries(cfg));
    append_entries(main, user_stop_entries(cfg));
    append_entries(homophones, user_homophone_entries(cfg));
    assert(entries(main@) =~= entries(old(main)@) + user_main(*cfg));
}

// ---------------------------------------------------------------------------
// Building
// ---------------------------------------------------------------------------

/// The lexicon that a configuration gives: the user's entries, then the
/// built-in ones.
pub open spec fn lexicon_for(user: Option<CommandConfig>) -> LexiconView {
    match user {
        Some(cfg) => LexiconView {
            main: user_main(cfg) + builtin_main(),
            homophones: user_homophones(cfg) + builtin_homophones(),
        },
        None => LexiconView { main: builtin_main(), homophones: builtin_homophones() },
    }
}

impl Default for Lexicon {
    fn default() -> (r: Self)
        ensures
            r@ == lexicon_for(None),
    {
        Lexicon::build(None)
    }
}

impl Lexicon {
    pub fn build(user_cfg: Option<&CommandConfig>) -> (r: Self)
        ensures
            user_cfg is Some ==> r@ == lexicon_for(Some(*user_cfg->0)),
            user_cfg is None ==> r@ == lexicon_for(None),
    {
        let mut main: Vec<LexEntry> = Vec::new();
        let mut homophones: Vec<LexEntry> = Vec::new();
        assert(entries(main@) =~= Seq::<Entry>::empty());
        assert(entries(homophones@) =~= Seq::<Entry>::empty());
        match user_cfg {
            Some(cfg) => {
                add_user_entries(&mut main, &mut homophones, cfg);
                assert(entries(main@) =~= user_main(*cfg));
                assert(entries(homophones@) =~= user_homophones(*cfg));
            },
            None => {},
        }
        add_builtin_main(&mut main);
        append_entries(&mut homophones, homophone_entries());
        let r = Lexicon { main, homophones };
        assert(user_cfg is None ==> r@ =~= lexicon_for(None));
        r
    }

    /// How many phrases the lexicon holds.
    pub fn entry_count(&self) -> (r: usize)
        requires
            self@.main.len() + self@.homophones.len() <= usize::MAX,
        ensures
            r == self@.main.len() + self@.homophones.len(),
    {
        self.main.len() + self.homophones.len()
    }
}

/// A phrase and the command that it stands for.
pub struct ActionAlias {
    pub phrase: String,
    pub command: ParsedCommand,
}

/// The built-in phrases for whole combinations, in the order of the lexicon.
pub fn builtin_action_aliases() -> (r: Vec<ActionAlias>)
    ensures
        r@.len() == builtin_actions().len(),
        forall|i: int|
            #![trigger r@[i]]
            0 <= i < r@.len() ==> builtin_actions()[i] == (Entry {
                phrase: r@[i].phrase@,
                meaning: Meaning::Action(r@[i].command@),
            }),
{
    let table = action_entries();
    let mut r: Vec<ActionAlias> = Vec::new();
    proof {
        assert(forall|i: int|
            0 <= i < builtin_actions().len() ==> (#[trigger] builtin_actions()[i]).meaning
                is Action);
    }
    for i in 0..table.len()
        invariant
            entries(table@) == builtin_actions(),
            r@.len() == i,
            forall|i: int|
                0 <= i < builtin_actions().len() ==> (#[trigger] builtin_actions()[i]).meaning
                    is Action,
            forall|j: int|
                #![trigger r@[j]]
                0 <= j < i ==> builtin_actions()[j] == (Entry {
                    phrase: r@[j].phrase@,
                    meaning: Meaning::Action(r@[j].command@),
                }),
    {
        assert(entries(table@)[i as int] == table@[i as int]@);
        match &table[i].meaning {
            LexOwned::Action(c) => {
                r.push(
                    ActionAlias { phrase: text::string_of(&table[i].phrase), command: c.clone() },
                );
            },
            _ => {
                assert(false);
            },
        }
    }
    r
}

/// Every entry of the user stands in the lexicon as it was written, actions
/// first, in front of everything built in, which is all there still.
pub proof fn law_the_user_comes_first(cfg: CommandConfig, i: int)
    ensures
        ({
            let main = lexicon_for(Some(cfg)).main;
            let n = cfg.action@.len() + cfg.modifier@.len() + cfg.key@.len() + cfg.stop@.len();
            &&& main.len() == n + lexicon_for(None).main.len()
            &&& 0 <= i < cfg.action@.len() ==> main[i] == (Entry {
                phrase: cfg.action@[i].phrase@,
                meaning: Meaning::Action(cfg.action@[i].meaning()),
            })
            &&& 0 <= i < cfg.modifier@.len() ==> main.take(n as int).contains(
                Entry {
                    phrase: cfg.modifier@[i].phrase@,
                    meaning: Meaning::Mod(cfg.modifier@[i].modifier),
                },
            )
            &&& 0 <= i < cfg.key@.len() ==> main.take(n as int).contains(
                Entry { phrase: cfg.key@[i].phrase@, meaning: Meaning::Key(cfg.key@[i].name@) },
            )
            &&& 0 <= i < cfg.stop@.len() ==> main.take(n as int).contains(
                Entry { phrase: cfg.stop@[i].phrase@, meaning: Meaning::Stop },
            )
            &&& main.skip(n as int) == lexicon_for(None).main
        }),
{
    let main = lexicon_for(Some(cfg)).main;
    let a = cfg.action@.len() as int;
    let b = a + cfg.modifier@.len();
    let c = b + cfg.key@.len();
    let n = c + cfg.stop@.len();
    let mine = main.take(n);
    assert(mine =~= user_main(cfg));
    if 0 <= i < cfg.modifier@.len() {
        assert(mine[a + i] == user_modifiers(cfg)[i]);
    }
    if 0 <= i < cfg.key@.len() {
        assert(mine[b + i] == user_keys(cfg)[i]);
    }
    if 0 <= i < cfg.stop@.len() {
        assert(mine[c + i] == user_stops(cfg)[i]);
    }
    if 0 <= i < cfg.action@.len() {
        assert(main[i] == user_actions(cfg)[i]);
    }
    assert(main.skip(n) =~= builtin_main());
}

/// The user's homophones name their letters, in front of those built in.
pub proof fn law_the_users_homophones_come_first(cfg: CommandConfig, i: int)
    ensures
        0 <= i < cfg.homophone@.len() ==> lexicon_for(Some(cfg)).homophones[i] == (Entry {
            phrase: cfg.homophone@[i].phrase@,
            meaning: Meaning::Key(cfg.homophone@[i].letter@),
        }),
        lexicon_for(Some(cfg)).homophones.skip(cfg.homophone@.len() as int) == lexicon_for(
            None,
        ).homophones,
{
    let n = cfg.homophone@.len() as int;
    if 0 <= i < n {
        assert(lexicon_for(Some(cfg)).homophones[i] == user_homophones(cfg)[i]);
    }
    assert(lexicon_for(Some(cfg)).homophones.skip(n) =~= builtin_homophones());
}

} // verus!
