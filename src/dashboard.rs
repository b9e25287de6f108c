//! The dashboard's own logic: tab navigation, key handling, how a status is
//! coloured, and how byte counts are written.

use vstd::prelude::*;
use crate::text::{decimal, decimal_string, digit_char, digit_str};

verus! {

/// The dashboard's tabs, in display order.
#[derive(Debug, Clone, Copy, PartialEq, Eq, Structural)]
pub enum Tab {
    Overview,
    Requests,
    Help,
}

impl Tab {
    pub open spec fn spec_next(self) -> Tab {
        match self {
            Tab::Overview => Tab::Requests,
            Tab::Requests => Tab::Help,
            Tab::Help => Tab::Overview,
        }
    }

    pub open spec fn spec_previous(self) -> Tab {
        match self {
            Tab::Help => Tab::Requests,
            Tab::Requests => Tab::Overview,
            Tab::Overview => Tab::Help,
        }
    }

    /// The tab after this one, wrapping round.
    pub fn next(self) -> (r: Tab)
        ensures
            r == self.spec_next(),
    {
        match self {
            Tab::Overview => Tab::Requests,
            Tab::Requests => Tab::Help,
            Tab::Help => Tab::Overview,
        }
    }

    /// The tab before this one, wrapping round.
    pub fn previous(self) -> (r: Tab)
        ensures
            r == self.spec_previous(),
    {
        match self {
            Tab::Help => Tab::Requests,
            Tab::Requests => Tab::Overview,
            Tab::Overview => Tab::Help,
        }
    }
}

/// A key press, as far as the dashboard tells keys apart.
#[derive(Debug, Clone, Copy, PartialEq, Eq, Structural)]
pub enum Key {
    Char(char),
    Tab,
    BackTab,
    Other,
}

/// The dashboard's navigation state.
#[derive(Debug, Clone, Copy, PartialEq, Eq, Structural)]
pub struct App {
    pub current_tab: Tab,
    pub should_quit: bool,
}

impl App {
    /// The overview tab, not quitting.
    pub fn new() -> (r: App)
        ensures
            r == (App { current_tab: Tab::Overview, should_quit: false }),
    {
        App { current_tab: Tab::Overview, should_quit: false }
    }

    pub fn next_tab(&mut self)
        ensures
            *final(self) == (App { current_tab: old(self).current_tab.spec_next(), ..*old(self) }),
    {
        self.current_tab = self.current_tab.next();
    }

    pub fn previous_tab(&mut self)
        ensures
            *final(self) == (App { current_tab: old(self).current_tab.spec_previous(), ..*old(self) }),
    {
        self.current_tab = self.current_tab.previous();
    }

    /// Reacts to a key: `q` quits, Tab and Shift+Tab move between tabs, `1`,
    /// `2` and `3` jump to a tab; any other key changes nothing.
    pub fn handle_key(&mut self, key: Key)
        ensures
            *final(self) == match key {
                Key::Char('q') => App { should_quit: true, ..*old(self) },
                Key::Tab => App { current_tab: old(self).current_tab.spec_next(), ..*old(self) },
                Key::BackTab => App { current_tab: old(self).current_tab.spec_previous(), ..*old(self) },
                Key::Char('1') => App { current_tab: Tab::Overview, ..*old(self) },
                Key::Char('2') => App { current_tab: Tab::Requests, ..*old(self) },
                Key::Char('3') => App { current_tab: Tab::Help, ..*old(self) },
                _ => *old(self),
            },
    {
        match key {
            Key::Char('q') => {
                self.should_quit = true;
            },
            Key::Tab => {
                self.next_tab();
            },
            Key::BackTab => {
                self.previous_tab();
            },
            Key::Char('1') => {
                self.current_tab = Tab::Overview;
            },
            Key::Char('2') => {
                self.current_tab = Tab::Requests;
            },
            Key::Char('3') => {
                self.current_tab = Tab::Help;
            },
            _ => {},
        }
    }
}

/// How a response status is shown.
#[derive(Debug, Clone, Copy, PartialEq, Eq, Structural)]
pub enum StatusStyle {
    /// 2xx.
    Success,
    /// 400 and above.
    Failure,
    /// Anything else.
    Neutral,
}

pub open spec fn style_of(status: u16) -> StatusStyle {
    if 200 <= status < 300 {
        StatusStyle::Success
    } else if status >= 400 {
        StatusStyle::Failure
    } else {
        StatusStyle::Neutral
    }
}

/// The style a status is shown in.
pub fn status_style(status: u16) -> (r: StatusStyle)
    ensures
        r == style_of(status),
{
    if status >= 200 && status < 300 {
        StatusStyle::Success
    } else if status >= 400 {
        StatusStyle::Failure
    } else {
        StatusStyle::Neutral
    }
}

/// 1024 to the power `k`.
pub open spec fn pow1024(k: nat) -> nat
    decreases k,
{
    if k == 0 {
        1
    } else {
        1024 * pow1024((k - 1) as nat)
    }
}

/// The unit a byte count is written in: the largest of B, KB, MB, GB, TB
/// (0 to 4) whose size the count reaches, B for counts under 1024.
pub open spec fn unit_index(bytes: nat) -> nat {
    if bytes >= pow1024(4) {
        4
    } else if bytes >= pow1024(3) {
        3
    } else if bytes >= pow1024(2) {
        2
    } else if bytes >= pow1024(1) {
        1
    } else {
        0
    }
}

pub open spec fn unit_name(k: nat) -> Seq<char> {
    if k == 0 {
        seq!['B']
    } else if k == 1 {
        seq!['K', 'B']
    } else if k == 2 {
        seq!['M', 'B']
    } else if k == 3 {
        seq!['G', 'B']
    } else {
        seq!['T', 'B']
    }
}

/// `n / d` rounded to the nearest integer, ties to the even one.
pub open spec fn round_half_even(n: nat, d: nat) -> nat
    recommends
        d > 0,
{
    let q = n / d;
    let r = n % d;
    if 2 * r > d || (2 * r == d && q % 2 == 1) {
        q + 1
    } else {
        q
    }
}

/// The byte count in its unit, in hundredths, rounded half to even.
pub open spec fn scaled_hundredths(bytes: nat) -> nat {
    round_half_even(bytes * 100, pow1024(unit_index(bytes)))
}

/// A byte count written with two decimals and its unit, such as `1.50 KB`.
pub open spec fn bytes_text(bytes: nat) -> Seq<char> {
    let h = scaled_hundredths(bytes);
    decimal(h / 100) + seq!['.', digit_char((h % 100) / 10), digit_char(h % 10), ' '] + unit_name(
        unit_index(bytes),
    )
}

fn unit_str(k: u64) -> (r: &'static str)
    requires
        k <= 4,
    ensures
        r@ == unit_name(k as nat),
{
    proof {
        reveal_strlit("B");
        reveal_strlit("KB");
        reveal_strlit("MB");
        reveal_strlit("GB");
        reveal_strlit("TB");
    }
    let r = if k == 0 {
        "B"
    } else if k == 1 {
        "KB"
    } else if k == 2 {
        "MB"
    } else if k == 3 {
        "GB"
    } else {
        "TB"
    };
    assert(r@ =~= unit_name(k as nat));
    r
}

/// The unit a byte count is written in, and that unit's size in bytes.
fn unit_of(bytes: u64) -> (r: (u64, u128))
    ensures
        r.0 as nat == unit_index(bytes as nat),
        r.1 as nat == pow1024(r.0 as nat),
        1 <= r.1 <= 1099511627776,
{
    proof {
        reveal_with_fuel(pow1024, 5);
    }
    if bytes >= 1099511627776 {
        (4, 1099511627776)
    } else if bytes >= 1073741824 {
        (3, 1073741824)
    } else if bytes >= 1048576 {
        (2, 1048576)
    } else if bytes >= 1024 {
        (1, 1024)
    } else {
        (0, 1)
    }
}

/// `bytes / size` in hundredths, rounded half to even.
fn hundredths(bytes: u64, size: u128) -> (h: u128)
    requires
        1 <= size <= 1099511627776,
    ensures
        h as nat == round_half_even(bytes as nat * 100, size as nat),
        h / 100 <= bytes,
{
    let n: u128 = bytes as u128 * 100;
    let q: u128 = n / size;
    let rem: u128 = n % size;
    assert(q <= n) by (nonlinear_arith)
        requires
            q == n / size,
            size >= 1,
    {
    }
    if 2 * rem > size || (2 * rem == size && q % 2 == 1) {
        q + 1
    } else {
        q
    }
}

/// Writes a byte count in the largest unit it reaches, with two decimals
/// rounded half to even: `0.00 B`, `1.50 KB`, `1.12 KB` for 1152 bytes.
pub fn format_bytes(bytes: u64) -> (r: String)
    ensures
        r@ == bytes_text(bytes as nat),
{
    let (unit, size) = unit_of(bytes);
    let h = hundredths(bytes, size);
    let whole = decimal_string((h / 100) as u64);
    let frac: u128 = h % 100;
    proof {
        reveal_strlit(".");
        reveal_strlit(" ");
    }
    let r = whole.concat(".").concat(digit_str((frac / 10) as u64)).concat(digit_str((frac % 10) as u64)).concat(
        " ",
    ).concat(unit_str(unit));
    assert(r@ =~= bytes_text(bytes as nat));
    r
}

} // verus!
