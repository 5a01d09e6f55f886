//! The state of the terminal interface and how keys and requests change it.
//! Drawing and reading the terminal are left to the caller.

use vstd::prelude::*;

verus! {

broadcast use vstd::string::to_string_from_display_ensures_for_str;

/// What the operator chose or typed, handed to whoever asked.
#[derive(Clone, Debug)]
pub enum ActionExecution {
    Select(String),
    Input(String),
}

/// Whether typed text is shown.
#[derive(Clone, Copy, Debug, PartialEq, Eq, Structural)]
pub enum InputType {
    Password,
    Text,
}

/// A request to change what the input box shows.
#[derive(Clone, Debug)]
pub enum InputChangeReq {
    /// A command prompt; not offered yet, so it changes nothing.
    Command,
    Options(SelectOption),
    /// A prompt with a title for text of the given kind.
    Input(String, InputType),
}

/// A titled list to pick one entry from; `current` is the highlighted one.
#[derive(Clone, Debug)]
pub struct SelectOption {
    pub title: String,
    pub current: usize,
    pub options: Vec<String>,
}

/// Which pane has the focus.
#[derive(Clone, Copy, Debug, PartialEq, Eq, Structural)]
pub enum Selected {
    Input,
    Logs,
}

impl Default for Selected {
    fn default() -> (r: Self)
        ensures
            r == Selected::Input,
    {
        Selected::Input
    }
}

/// What the input box holds.
#[derive(Clone, Debug)]
pub enum InputMode {
    /// Nothing is being asked.
    Idle,
    Options(SelectOption),
    /// A prompt title, the text typed so far, and its kind.
    Input(String, Vec<char>, InputType),
}

impl Default for InputMode {
    fn default() -> (r: Self)
        ensures
            r is Idle,
    {
        InputMode::Idle
    }
}

/// The colours a log line is drawn in.
#[derive(Clone, Copy, Debug, PartialEq, Eq, Structural)]
pub enum LogColor {
    Plain,
    Red,
    Yellow,
    Gray,
    LightGreen,
    LightCyan,
    Green,
    Black,
    White,
}

/// The severity of a log record.
#[derive(Clone, Copy, Debug, PartialEq, Eq, Structural)]
pub enum LogLevel {
    Error,
    Warn,
    Info,
    Debug,
    Trace,
}

/// The colour a severity is drawn in.
pub open spec fn level_color(level: LogLevel) -> LogColor {
    match level {
        LogLevel::Error => LogColor::Red,
        LogLevel::Warn => LogColor::Yellow,
        LogLevel::Info => LogColor::Gray,
        LogLevel::Debug => LogColor::LightGreen,
        LogLevel::Trace => LogColor::LightCyan,
    }
}

/// Whether a record of this severity is shown: information and above.
pub fn level_enabled(level: LogLevel) -> (r: bool)
    ensures
        r <==> (level == LogLevel::Error || level == LogLevel::Warn || level == LogLevel::Info),
{
    match level {
        LogLevel::Error | LogLevel::Warn | LogLevel::Info => true,
        _ => false,
    }
}

/// One coloured piece of a log line.
pub struct LogSpan {
    pub text: String,
    pub color: LogColor,
}

/// Lays out a log record: `[`, the time, the severity, the file if known,
/// `] `, then the message, each in its colour.
pub fn format_log_line(time: String, level_name: String, level: LogLevel, file: Option<String>, content: String) -> (r: Vec<LogSpan>)
    ensures
        r@.len() == 6,
        r@[0].text@ == "["@ && r@[0].color == LogColor::Plain,
        r@[1].text@ == time@ + seq![' '] && r@[1].color == LogColor::Green,
        r@[2].text@ == level_name@ && r@[2].color == level_color(level),
        r@[3].text@ == (match file {
            Some(f) => seq![' '] + f@,
            None => Seq::<char>::empty(),
        }) && r@[3].color == LogColor::Black,
        r@[4].text@ == "] "@ && r@[4].color == LogColor::Plain,
        r@[5].text@ == content@ && r@[5].color == LogColor::White,
{
    let mut spans: Vec<LogSpan> = Vec::new();
    spans.push(LogSpan { text: "[".to_string(), color: LogColor::Plain });
    let mut t = time;
    t.append(" ");
    spans.push(LogSpan { text: t, color: LogColor::Green });
    let color = match level {
        LogLevel::Error => LogColor::Red,
        LogLevel::Warn => LogColor::Yellow,
        LogLevel::Info => LogColor::Gray,
        LogLevel::Debug => LogColor::LightGreen,
        LogLevel::Trace => LogColor::LightCyan,
    };
    spans.push(LogSpan { text: level_name, color });
    let file_text = match file {
        Some(f) => {
            let mut s = " ".to_string();
            s.append(f.as_str());
            s
        },
        None => String::new(),
    };
    spans.push(LogSpan { text: file_text, color: LogColor::Black });
    spans.push(LogSpan { text: "] ".to_string(), color: LogColor::Plain });
    spans.push(LogSpan { text: content, color: LogColor::White });
    proof {
        reveal_strlit(" ");
    }
    spans
}

/// A key the interface reacts to.
#[derive(Clone, Copy, Debug, PartialEq, Eq, Structural)]
pub enum Key {
    Tab,
    Esc,
    Up,
    Down,
    Left,
    Right,
    Backspace,
    Enter,
    Char(char),
    Other,
}

/// What a key press asks of the caller.
#[derive(Clone, Debug)]
pub enum KeyOutcome {
    /// Keep going.
    Continue,
    /// Leave the interface.
    Quit,
    /// Hand this choice or text to whoever asked, and keep going.
    Send(ActionExecution),
}

/// The longest text the input box holds, so that the cursor fits its type.
pub const MAX_INPUT_CHARS: usize = 65535;

/// The whole state of the interface.
pub struct AppState {
    pub select: Selected,
    pub mode: InputMode,
    pub selected_input: u16,
    /// The cursor position in the typed text.
    pub offset: u16,
    pub log_msgs: Vec<Vec<LogSpan>>,
}

impl Default for AppState {
    fn default() -> (r: Self)
        ensures
            r.select == Selected::Input,
            r.mode is Idle,
            r.selected_input == 0,
            r.offset == 0,
            r.log_msgs@.len() == 0,
    {
        AppState {
            select: Selected::Input,
            mode: InputMode::Idle,
            selected_input: 0,
            offset: 0,
            log_msgs: Vec::new(),
        }
    }
}

/// The highlighted entry after moving up: the one above, or from the first
/// round to the last.
pub open spec fn option_up(current: nat, len: nat) -> nat {
    if len == 0 {
        current
    } else if current == 0 || current > len {
        (len - 1) as nat
    } else {
        (current - 1) as nat
    }
}

/// The highlighted entry after moving down: the one below, or from the last
/// round to the first.
pub open spec fn option_down(current: nat, len: nat) -> nat {
    if len == 0 {
        current
    } else if current + 1 >= len {
        0
    } else {
        current + 1
    }
}

impl AppState {
    /// Appends a log line.
    pub fn push_log(&mut self, line: Vec<LogSpan>)
        ensures
            final(self).log_msgs@ == old(self).log_msgs@.push(line),
            final(self).select == old(self).select,
            final(self).offset == old(self).offset,
            final(self).selected_input == old(self).selected_input,
            final(self).mode == old(self).mode,
    {
        self.log_msgs.push(line);
    }

    /// Installs what a request asks the input box to show; the cursor goes
    /// back to the start.
    pub fn apply_request(&mut self, req: InputChangeReq)
        ensures
            final(self).offset == 0,
            final(self).select == old(self).select,
            final(self).log_msgs == old(self).log_msgs,
            req is Command ==> final(self).mode == old(self).mode,
            req matches InputChangeReq::Options(v) ==> final(self).mode == InputMode::Options(v),
            req matches InputChangeReq::Input(t, k) ==> (final(self).mode matches InputMode::Input(t2, chars, k2)
                && t2 == t && k2 == k && chars@.len() == 0),
    {
        self.offset = 0;
        match req {
            InputChangeReq::Command => {},
            InputChangeReq::Options(v) => {
                self.mode = InputMode::Options(v);
            },
            InputChangeReq::Input(title, kind) => {
                self.mode = InputMode::Input(title, Vec::new(), kind);
            },
        }
    }

    /// Reacts to a key. Tab moves the focus and Esc leaves, whatever has the
    /// focus; other keys act on the input box when it has the focus.
    pub fn handle_key(&mut self, key: Key) -> (r: KeyOutcome)
        ensures
            key == Key::Esc ==> r is Quit && final(self).select == old(self).select,
            key == Key::Tab ==> r is Continue && final(self).select == (if old(self).select == Selected::Input {
                Selected::Logs
            } else {
                Selected::Input
            }),
            final(self).log_msgs == old(self).log_msgs,
            key != Key::Tab ==> final(self).select == old(self).select,
            old(self).select == Selected::Logs && key != Key::Esc ==> r is Continue && final(self).mode == old(self).mode
                && final(self).offset == old(self).offset,
            old(self).select == Selected::Input && key != Key::Tab && key != Key::Esc ==> match old(self).mode {
                InputMode::Idle => r is Continue && final(self).mode is Idle && final(self).offset == old(self).offset,
                InputMode::Options(o) => options_key_post(o, key, r, final(self).mode, old(self).offset, final(self).offset),
                InputMode::Input(t, chars, k) => input_key_post(t, chars@, k, old(self).offset as nat, key, r, final(self).mode, final(self).offset as nat),
            },
    {
        match key {
            Key::Tab => {
                self.select = match self.select {
                    Selected::Input => Selected::Logs,
                    Selected::Logs => Selected::Input,
                };
                return KeyOutcome::Continue;
            },
            Key::Esc => {
                return KeyOutcome::Quit;
            },
            _ => {},
        }
        if self.select == Selected::Logs {
            return KeyOutcome::Continue;
        }
        let mut mode = InputMode::Idle;
        std::mem::swap(&mut mode, &mut self.mode);
        match mode {
            InputMode::Idle => {
                self.mode = InputMode::Idle;
                KeyOutcome::Continue
            },
            InputMode::Options(o) => self.options_key(o, key),
            InputMode::Input(t, chars, k) => self.input_key(t, chars, k, key),
        }
    }

    fn options_key(&mut self, o: SelectOption, key: Key) -> (r: KeyOutcome)
        ensures
            options_key_post(o, key, r, final(self).mode, old(self).offset, final(self).offset),
            final(self).select == old(self).select,
            final(self).log_msgs == old(self).log_msgs,
    {
        let mut o = o;
        let len = o.options.len();
        match key {
            Key::Up => {
                if len != 0 {
                    if o.current == 0 || o.current > len {
                        o.current = len - 1;
                    } else {
                        o.current = o.current - 1;
                    }
                }
                self.mode = InputMode::Options(o);
                KeyOutcome::Continue
            },
            Key::Down => {
                if len != 0 {
                    if o.current >= len - 1 {
                        o.current = 0;
                    } else {
                        o.current = o.current + 1;
                    }
                }
                self.mode = InputMode::Options(o);
                KeyOutcome::Continue
            },
            Key::Enter => {
                if o.current < len {
                    let chosen = o.options[o.current].clone();
                    self.mode = InputMode::Idle;
                    self.offset = 0;
                    KeyOutcome::Send(ActionExecution::Select(chosen))
                } else {
                    self.mode = InputMode::Options(o);
                    KeyOutcome::Continue
                }
            },
            _ => {
                self.mode = InputMode::Options(o);
                KeyOutcome::Continue
            },
        }
    }

    fn input_key(&mut self, title: String, chars: Vec<char>, kind: InputType, key: Key) -> (r: KeyOutcome)
        ensures
            input_key_post(title, chars@, kind, old(self).offset as nat, key, r, final(self).mode, final(self).offset as nat),
            final(self).select == old(self).select,
            final(self).log_msgs == old(self).log_msgs,
    {
        let mut chars = chars;
        let len = chars.len();
        match key {
            Key::Left => {
                if self.offset != 0 {
                    self.offset = self.offset - 1;
                }
            },
            Key::Right => {
                if (self.offset as usize) < len && (self.offset as usize) < MAX_INPUT_CHARS {
                    self.offset = self.offset + 1;
                }
            },
            Key::Backspace => {
                if self.offset != 0 && (self.offset as usize) <= len {
                    chars.remove((self.offset - 1) as usize);
                    self.offset = self.offset - 1;
                }
            },
            Key::Char(c) => {
                if (self.offset as usize) <= len && len < MAX_INPUT_CHARS {
                    chars.insert(self.offset as usize, c);
                    self.offset = self.offset + 1;
                }
            },
            Key::Enter => {
                let text = collect_chars(&chars);
                self.mode = InputMode::Idle;
                self.offset = 0;
                return KeyOutcome::Send(ActionExecution::Input(text));
            },
            _ => {},
        }
        self.mode = InputMode::Input(title, chars, kind);
        KeyOutcome::Continue
    }

    /// Inserts pasted text at the cursor and moves the cursor past it, when
    /// a text prompt has the focus and the text fits.
    pub fn paste(&mut self, text: Vec<char>)
        ensures
            final(self).select == old(self).select,
            final(self).log_msgs == old(self).log_msgs,
            ({
                match old(self).mode {
                    InputMode::Input(t, chars, k) => {
                        if old(self).select == Selected::Input && old(self).offset <= chars@.len()
                            && chars@.len() + text@.len() <= MAX_INPUT_CHARS {
                            final(self).mode matches InputMode::Input(t2, chars2, k2) && t2 == t && k2 == k
                                && chars2@ == chars@.subrange(0, old(self).offset as int) + text@
                                    + chars@.subrange(old(self).offset as int, chars@.len() as int)
                                && final(self).offset == old(self).offset + text@.len()
                        } else {
                            final(self).mode == old(self).mode && final(self).offset == old(self).offset
                        }
                    },
                    _ => final(self).mode == old(self).mode && final(self).offset == old(self).offset,
                }
            }),
    {
        if self.select != Selected::Input {
            return;
        }
        let mut mode = InputMode::Idle;
        std::mem::swap(&mut mode, &mut self.mode);
        match mode {
            InputMode::Input(t, chars, k) => {
                let at = self.offset as usize;
                if at <= chars.len() && chars.len() <= MAX_INPUT_CHARS && text.len() <= MAX_INPUT_CHARS - chars.len() {
                    let mut joined: Vec<char> = Vec::new();
                    let mut i: usize = 0;
                    while i < at
                        invariant
                            i <= at <= chars@.len(),
                            joined@ == chars@.subrange(0, i as int),
                        decreases at - i,
                    {
                        joined.push(chars[i]);
                        i = i + 1;
                        assert(joined@ =~= chars@.subrange(0, i as int));
                    }
                    let mut j: usize = 0;
                    while j < text.len()
                        invariant
                            j <= text@.len(),
                            at <= chars@.len(),
                            joined@ == chars@.subrange(0, at as int) + text@.subrange(0, j as int),
                        decreases text@.len() - j,
                    {
                        joined.push(text[j]);
                        j = j + 1;
                        assert(joined@ =~= chars@.subrange(0, at as int) + text@.subrange(0, j as int));
                    }
                    let mut m: usize = at;
                    while m < chars.len()
                        invariant
                            at <= m <= chars@.len(),
                            joined@ == chars@.subrange(0, at as int) + text@ + chars@.subrange(at as int, m as int),
                        decreases chars@.len() - m,
                    {
                        joined.push(chars[m]);
                        m = m + 1;
                        assert(joined@ =~= chars@.subrange(0, at as int) + text@ + chars@.subrange(at as int, m as int));
                    }
                    assert(text@.subrange(0, text@.len() as int) =~= text@);
                    self.offset = (at + text.len()) as u16;
                    self.mode = InputMode::Input(t, joined, k);
                } else {
                    self.mode = InputMode::Input(t, chars, k);
                }
            },
            other => {
                self.mode = other;
            },
        }
    }
}

/// What a key does to a list of options.
pub open spec fn options_key_post(o: SelectOption, key: Key, r: KeyOutcome, mode: InputMode, offset: u16, new_offset: u16) -> bool {
    let len = o.options@.len();
    match key {
        Key::Up => r is Continue && new_offset == offset && (mode matches InputMode::Options(o2) && o2.title == o.title
            && o2.options == o.options && o2.current as nat == option_up(o.current as nat, len)),
        Key::Down => r is Continue && new_offset == offset && (mode matches InputMode::Options(o2) && o2.title == o.title
            && o2.options == o.options && o2.current as nat == option_down(o.current as nat, len)),
        Key::Enter => if o.current < len {
            (r matches KeyOutcome::Send(ActionExecution::Select(s)) && s == o.options@[o.current as int])
                && mode is Idle && new_offset == 0
        } else {
            r is Continue && mode == InputMode::Options(o) && new_offset == offset
        },
        _ => r is Continue && mode == InputMode::Options(o) && new_offset == offset,
    }
}

/// What a key does to a text prompt with `chars` typed and the cursor at
/// `offset`.
pub open spec fn input_key_post(title: String, chars: Seq<char>, kind: InputType, offset: nat, key: Key, r: KeyOutcome, mode: InputMode, new_offset: nat) -> bool {
    match key {
        Key::Enter => (r matches KeyOutcome::Send(ActionExecution::Input(s)) && s@ == chars) && mode is Idle && new_offset == 0,
        _ => r is Continue && (mode matches InputMode::Input(t2, chars2, k2) && t2 == title && k2 == kind
            && match key {
                Key::Left => chars2@ == chars && new_offset == (if offset != 0 { (offset - 1) as nat } else { offset }),
                Key::Right => chars2@ == chars && new_offset == (if offset < chars.len() && offset < MAX_INPUT_CHARS {
                    offset + 1
                } else {
                    offset
                }),
                Key::Backspace => if offset != 0 && offset <= chars.len() {
                    chars2@ == chars.remove(offset - 1) && new_offset == offset - 1
                } else {
                    chars2@ == chars && new_offset == offset
                },
                Key::Char(c) => if offset <= chars.len() && chars.len() < MAX_INPUT_CHARS {
                    chars2@ == chars.insert(offset as int, c) && new_offset == offset + 1
                } else {
                    chars2@ == chars && new_offset == offset
                },
                _ => chars2@ == chars && new_offset == offset,
            }),
    }
}

/// Relies on the standard library's String::from_iter over chars, which
/// concatenates them in order.
#[verifier::external_body]
fn collect_chars(chars: &Vec<char>) -> (r: String)
    ensures
        r@ == chars@,
{
    chars.iter().collect::<String>()
}

} // verus!
