//! The settings bar: an ordered row of buttons, some of them separators,
//! with a selection that moves left and right over the buttons on offer.

use vstd::prelude::*;
use crate::config::{ConfigOption, SessionConfig};

verus! {

/// What stands at one place of the bar.
#[derive(Clone, Copy, Debug, PartialEq, Eq, Structural)]
pub enum BarItem {
    /// A divider between groups; it can be neither selected nor pressed.
    Separator,
    /// A button that chooses an option.
    Choice(ConfigOption),
}

/// One place of the bar as a front end shows it.
#[derive(Clone, Copy, Debug, PartialEq, Eq, Structural)]
pub struct Button {
    pub item: BarItem,
    /// Drawn highlighted: the option is in force.
    pub active: bool,
    /// Drawn at all: the option is on offer.
    pub enabled: bool,
}

/// Number of places in the bar.
pub const BAR_LEN: usize = 14;

/// The places of the bar, left to right.
pub open spec fn bar_items() -> Seq<BarItem> {
    seq![
        BarItem::Choice(ConfigOption::Punctuation),
        BarItem::Choice(ConfigOption::Numbers),
        BarItem::Separator,
        BarItem::Choice(ConfigOption::Time),
        BarItem::Choice(ConfigOption::Words),
        BarItem::Choice(ConfigOption::Quote),
        BarItem::Separator,
        BarItem::Choice(ConfigOption::TimeLimit(15_000)),
        BarItem::Choice(ConfigOption::TimeLimit(30_000)),
        BarItem::Choice(ConfigOption::TimeLimit(60_000)),
        BarItem::Choice(ConfigOption::TimeLimit(120_000)),
        BarItem::Choice(ConfigOption::BatchSize(25)),
        BarItem::Choice(ConfigOption::BatchSize(50)),
        BarItem::Choice(ConfigOption::BatchSize(100)),
    ]
}

/// How `item` shows under `config`. A separator is always shown.
pub open spec fn button_for(config: SessionConfig, item: BarItem) -> Button {
    match item {
        BarItem::Separator => Button { item, active: true, enabled: true },
        BarItem::Choice(option) => Button {
            item,
            active: config.active(option),
            enabled: config.enabled(option),
        },
    }
}

/// The whole bar under `config`.
pub open spec fn bar(config: SessionConfig) -> Seq<Button> {
    Seq::new(bar_items().len(), |i: int| button_for(config, bar_items()[i]))
}

/// A place that the selection may rest on: inside the bar, on offer, and
/// not a separator.
pub open spec fn selectable(buttons: Seq<Button>, i: int) -> bool {
    0 <= i < buttons.len() && buttons[i].enabled && buttons[i].item != BarItem::Separator
}

/// The place `k` steps to the left of `from` in a ring of `n` places.
pub open spec fn step_left(n: int, from: int, k: int) -> int {
    if k <= from {
        from - k
    } else {
        from - k + n
    }
}

/// The place `k` steps to the right of `from` in a ring of `n` places.
pub open spec fn step_right(n: int, from: int, k: int) -> int {
    if from + k < n {
        from + k
    } else {
        from + k - n
    }
}

/// `r` is where the selection goes from `selected` by one move to the left:
/// the nearest selectable place going left around the ring. It stays where
/// it is if it rests on no selectable place, or if there is no other one.
pub open spec fn is_left_neighbour(buttons: Seq<Button>, selected: int, r: int) -> bool {
    let n = buttons.len() as int;
    if !selectable(buttons, selected) {
        r == selected
    } else {
        ||| (r == selected && forall|k: int|
            1 <= k < n ==> !selectable(buttons, #[trigger] step_left(n, selected, k)))
        ||| exists|d: int|
            1 <= d < n && r == #[trigger] step_left(n, selected, d) && selectable(buttons, r)
                && forall|k: int|
                1 <= k < d ==> !selectable(buttons, #[trigger] step_left(n, selected, k))
    }
}

/// `r` is where the selection goes from `selected` by one move to the
/// right; as [`is_left_neighbour`], in the other direction.
pub open spec fn is_right_neighbour(buttons: Seq<Button>, selected: int, r: int) -> bool {
    let n = buttons.len() as int;
    if !selectable(buttons, selected) {
        r == selected
    } else {
        ||| (r == selected && forall|k: int|
            1 <= k < n ==> !selectable(buttons, #[trigger] step_right(n, selected, k)))
        ||| exists|d: int|
            1 <= d < n && r == #[trigger] step_right(n, selected, d) && selectable(buttons, r)
                && forall|k: int|
                1 <= k < d ==> !selectable(buttons, #[trigger] step_right(n, selected, k))
    }
}

/// The place that one move to the left takes the selection to.
pub open spec fn left_neighbour(buttons: Seq<Button>, selected: int) -> int {
    choose|r: int| is_left_neighbour(buttons, selected, r)
}

/// The place that one move to the right takes the selection to.
pub open spec fn right_neighbour(buttons: Seq<Button>, selected: int) -> int {
    choose|r: int| is_right_neighbour(buttons, selected, r)
}

/// A move to the left has one result only.
pub proof fn lemma_left_neighbour_unique(buttons: Seq<Button>, selected: int, r1: int, r2: int)
    requires
        is_left_neighbour(buttons, selected, r1),
        is_left_neighbour(buttons, selected, r2),
    ensures
        r1 == r2,
        r1 == left_neighbour(buttons, selected),
{
    let n = buttons.len() as int;
    if selectable(buttons, selected) && r1 != r2 {
        if r1 == selected {
            let d = choose|d: int|
                1 <= d < n && r2 == #[trigger] step_left(n, selected, d) && selectable(
                    buttons,
                    r2,
                );
            assert(!selectable(buttons, step_left(n, selected, d)));
        } else if r2 == selected {
            let d = choose|d: int|
                1 <= d < n && r1 == #[trigger] step_left(n, selected, d) && selectable(
                    buttons,
                    r1,
                );
            assert(!selectable(buttons, step_left(n, selected, d)));
        } else {
            let d1 = choose|d: int|
                1 <= d < n && r1 == #[trigger] step_left(n, selected, d) && selectable(buttons, r1)
                    && forall|k: int|
                    1 <= k < d ==> !selectable(buttons, #[trigger] step_left(n, selected, k));
            let d2 = choose|d: int|
                1 <= d < n && r2 == #[trigger] step_left(n, selected, d) && selectable(buttons, r2)
                    && forall|k: int|
                    1 <= k < d ==> !selectable(buttons, #[trigger] step_left(n, selected, k));
            if d1 < d2 {
                assert(!selectable(buttons, step_left(n, selected, d1)));
            } else if d2 < d1 {
                assert(!selectable(buttons, step_left(n, selected, d2)));
            }
        }
    }
}

/// A move to the right has one result only.
pub proof fn lemma_right_neighbour_unique(buttons: Seq<Button>, selected: int, r1: int, r2: int)
    requires
        is_right_neighbour(buttons, selected, r1),
        is_right_neighbour(buttons, selected, r2),
    ensures
        r1 == r2,
        r1 == right_neighbour(buttons, selected),
{
    let n = buttons.len() as int;
    if selectable(buttons, selected) && r1 != r2 {
        if r1 == selected {
            let d = choose|d: int|
                1 <= d < n && r2 == #[trigger] step_right(n, selected, d) && selectable(
                    buttons,
                    r2,
                );
            assert(!selectable(buttons, step_right(n, selected, d)));
        } else if r2 == selected {
            let d = choose|d: int|
                1 <= d < n && r1 == #[trigger] step_right(n, selected, d) && selectable(
                    buttons,
                    r1,
                );
            assert(!selectable(buttons, step_right(n, selected, d)));
        } else {
            let d1 = choose|d: int|
                1 <= d < n && r1 == #[trigger] step_right(n, selected, d) && selectable(
                    buttons,
                    r1,
                ) && forall|k: int|
                    1 <= k < d ==> !selectable(buttons, #[trigger] step_right(n, selected, k));
            let d2 = choose|d: int|
                1 <= d < n && r2 == #[trigger] step_right(n, selected, d) && selectable(
                    buttons,
                    r2,
                ) && forall|k: int|
                    1 <= k < d ==> !selectable(buttons, #[trigger] step_right(n, selected, k));
            if d1 < d2 {
                assert(!selectable(buttons, step_right(n, selected, d1)));
            } else if d2 < d1 {
                assert(!selectable(buttons, step_right(n, selected, d2)));
            }
        }
    }
}

fn item_button(config: &SessionConfig, item: BarItem) -> (b: Button)
    ensures
        b == button_for(*config, item),
{
    match item {
        BarItem::Separator => Button { item, active: true, enabled: true },
        BarItem::Choice(option) => Button {
            item,
            active: config.is_active(option),
            enabled: config.is_enabled(option),
        },
    }
}

/// The bar as it shows under `config`.
pub fn button_bar(config: &SessionConfig) -> (buttons: Vec<Button>)
    ensures
        buttons@ == bar(*config),
        buttons@.len() == BAR_LEN,
{
    let mut items: Vec<BarItem> = Vec::new();
    items.push(BarItem::Choice(ConfigOption::Punctuation));
    items.push(BarItem::Choice(ConfigOption::Numbers));
    items.push(BarItem::Separator);
    items.push(BarItem::Choice(ConfigOption::Time));
    items.push(BarItem::Choice(ConfigOption::Words));
    items.push(BarItem::Choice(ConfigOption::Quote));
    items.push(BarItem::Separator);
    items.push(BarItem::Choice(ConfigOption::TimeLimit(15_000)));
    items.push(BarItem::Choice(ConfigOption::TimeLimit(30_000)));
    items.push(BarItem::Choice(ConfigOption::TimeLimit(60_000)));
    items.push(BarItem::Choice(ConfigOption::TimeLimit(120_000)));
    items.push(BarItem::Choice(ConfigOption::BatchSize(25)));
    items.push(BarItem::Choice(ConfigOption::BatchSize(50)));
    items.push(BarItem::Choice(ConfigOption::BatchSize(100)));
    assert(items@ =~= bar_items());
    let mut buttons: Vec<Button> = Vec::new();
    let mut i: usize = 0;
    while i < items.len()
        invariant
            i <= items.len(),
            items@ == bar_items(),
            buttons@.len() == i,
            forall|j: int| 0 <= j < i ==> buttons@[j] == button_for(*config, bar_items()[j]),
        decreases items.len() - i,
    {
        buttons.push(item_button(config, items[i]));
        i += 1;
    }
    assert(buttons@ =~= bar(*config));
    buttons
}

fn can_select(buttons: &Vec<Button>, i: usize) -> (b: bool)
    ensures
        b == selectable(buttons@, i as int),
{
    i < buttons.len() && buttons[i].enabled && !matches!(buttons[i].item, BarItem::Separator)
}

/// Moves the selection one place to the left, past separators and
/// buttons that are not on offer, around the end of the bar.
pub fn move_left(buttons: &Vec<Button>, selected: usize) -> (r: usize)
    ensures
        is_left_neighbour(buttons@, selected as int, r as int),
        r == left_neighbour(buttons@, selected as int),
{
    let r = nearest_left(buttons, selected);
    proof {
        lemma_left_neighbour_unique(buttons@, selected as int, r as int, r as int);
    }
    r
}

fn nearest_left(buttons: &Vec<Button>, selected: usize) -> (r: usize)
    ensures
        is_left_neighbour(buttons@, selected as int, r as int),
{
    if !can_select(buttons, selected) {
        return selected;
    }
    let n = buttons.len();
    let mut k: usize = 1;
    let mut j: usize = if selected == 0 { n - 1 } else { selected - 1 };
    while k < n
        invariant
            n == buttons.len(),
            selectable(buttons@, selected as int),
            j < n,
            1 <= k <= n,
            k < n ==> j == step_left(n as int, selected as int, k as int),
            forall|m: int|
                1 <= m < k ==> !selectable(
                    buttons@,
                    #[trigger] step_left(n as int, selected as int, m),
                ),
        decreases n - k,
    {
        if can_select(buttons, j) {
            return j;
        }
        k += 1;
        j = if j == 0 { n - 1 } else { j - 1 };
    }
    selected
}

/// Moves the selection one place to the right, past separators and
/// buttons that are not on offer, around the end of the bar.
pub fn move_right(buttons: &Vec<Button>, selected: usize) -> (r: usize)
    ensures
        is_right_neighbour(buttons@, selected as int, r as int),
        r == right_neighbour(buttons@, selected as int),
{
    let r = nearest_right(buttons, selected);
    proof {
        lemma_right_neighbour_unique(buttons@, selected as int, r as int, r as int);
    }
    r
}

fn nearest_right(buttons: &Vec<Button>, selected: usize) -> (r: usize)
    ensures
        is_right_neighbour(buttons@, selected as int, r as int),
{
    if !can_select(buttons, selected) {
        return selected;
    }
    let n = buttons.len();
    let mut k: usize = 1;
    let mut j: usize = if selected == n - 1 { 0 } else { selected + 1 };
    while k < n
        invariant
            n == buttons.len(),
            selectable(buttons@, selected as int),
            j < n,
            1 <= k <= n,
            k < n ==> j == step_right(n as int, selected as int, k as int),
            forall|m: int|
                1 <= m < k ==> !selectable(
                    buttons@,
                    #[trigger] step_right(n as int, selected as int, m),
                ),
        decreases n - k,
    {
        if can_select(buttons, j) {
            return j;
        }
        k += 1;
        j = if j == n - 1 { 0 } else { j + 1 };
    }
    selected
}

/// What a front end saw of the pointer on one place of the bar in one
/// frame.
#[derive(Clone, Copy, Debug, PartialEq, Eq, Structural)]
pub struct ButtonProbe {
    /// The pointer was on the button and its key went down.
    pub clicked: bool,
    /// The pointer was on the button.
    pub hovered: bool,
}

/// What the pointer did to the bar in one frame.
#[derive(Clone, Copy, Debug, PartialEq, Eq, Structural)]
pub struct SettingsUpdate {
    /// The pointer was on a button.
    pub any_hovered: bool,
    /// The settings that the presses of this frame lead to, if a button was
    /// pressed. The session then starts over with them and a new text.
    pub config: Option<SessionConfig>,
}

/// The pointer is on the button at place `i`.
pub open spec fn hovers(buttons: Seq<Button>, probes: Seq<ButtonProbe>, i: int) -> bool {
    selectable(buttons, i) && i < probes.len() && probes[i].hovered
}

/// Punctuation and numbers switch on and off; every other button only
/// switches on.
pub open spec fn is_toggle(item: BarItem) -> bool {
    item == BarItem::Choice(ConfigOption::Punctuation) || item == BarItem::Choice(
        ConfigOption::Numbers,
    )
}

/// The button at place `i` is pressed to effect: it is clicked, and it
/// is a toggle or not in force already.
pub open spec fn presses(buttons: Seq<Button>, probes: Seq<ButtonProbe>, i: int) -> bool {
    selectable(buttons, i) && i < probes.len() && probes[i].clicked && (!buttons[i].active
        || is_toggle(buttons[i].item))
}

/// The pointer is on one of the first `n` buttons.
pub open spec fn any_hover(buttons: Seq<Button>, probes: Seq<ButtonProbe>, n: int) -> bool {
    exists|i: int| 0 <= i < n && #[trigger] hovers(buttons, probes, i)
}

/// One of the first `n` buttons is pressed to effect.
pub open spec fn any_press(buttons: Seq<Button>, probes: Seq<ButtonProbe>, n: int) -> bool {
    exists|i: int| 0 <= i < n && #[trigger] presses(buttons, probes, i)
}

/// The settings after the presses on the first `n` buttons, taken left to
/// right. Which buttons are pressed is judged by the bar as it was drawn,
/// `buttons`; what a press does, by the settings as they then stand.
pub open spec fn after_presses(
    config: SessionConfig,
    buttons: Seq<Button>,
    probes: Seq<ButtonProbe>,
    n: nat,
) -> SessionConfig
    decreases n,
{
    if n == 0 {
        config
    } else {
        let before = after_presses(config, buttons, probes, (n - 1) as nat);
        if presses(buttons, probes, n - 1) {
            before.after_select(buttons[n - 1].item->Choice_0)
        } else {
            before
        }
    }
}

/// The presses of one frame keep a configuration free of contradictory
/// flags.
pub proof fn lemma_presses_keep_wf(
    config: SessionConfig,
    buttons: Seq<Button>,
    probes: Seq<ButtonProbe>,
    n: nat,
)
    requires
        config.wf(),
    ensures
        after_presses(config, buttons, probes, n).wf(),
    decreases n,
{
    if n > 0 {
        lemma_presses_keep_wf(config, buttons, probes, (n - 1) as nat);
    }
}

/// Takes what the pointer did to each place of the bar drawn for `config`,
/// `probes[i]` for place `i`, and says whether it was on a button and what
/// the settings are to become. A probe on a separator or on a button that
/// is not on offer counts for nothing, as does a missing one.
pub fn handle_settings_buttons(config: &SessionConfig, probes: &Vec<ButtonProbe>) -> (update:
    SettingsUpdate)
    ensures
        update.any_hovered == any_hover(bar(*config), probes@, BAR_LEN as int),
        update.config == if any_press(bar(*config), probes@, BAR_LEN as int) {
            Some(after_presses(*config, bar(*config), probes@, BAR_LEN as nat))
        } else {
            None
        },
        config.wf() && update.config is Some ==> update.config->0.wf(),
{
    let buttons = button_bar(config);
    let mut current = *config;
    let mut pressed = false;
    let mut any_hovered = false;
    let mut i: usize = 0;
    while i < buttons.len()
        invariant
            i <= buttons.len(),
            buttons@ == bar(*config),
            buttons@.len() == BAR_LEN,
            current == after_presses(*config, buttons@, probes@, i as nat),
            pressed == any_press(buttons@, probes@, i as int),
            any_hovered == any_hover(buttons@, probes@, i as int),
        decreases buttons.len() - i,
    {
        let button = buttons[i];
        if can_select(&buttons, i) && i < probes.len() {
            let probe = probes[i];
            if probe.hovered {
                any_hovered = true;
            }
            if probe.clicked {
                match button.item {
                    BarItem::Choice(option) => {
                        let toggle = matches!(
                            option,
                            ConfigOption::Punctuation | ConfigOption::Numbers
                        );
                        if !button.active || toggle {
                            current = current.select(option);
                            pressed = true;
                        }
                    },
                    BarItem::Separator => {},
                }
            }
        }
        proof {
            let n = i as int;
            assert(hovers(buttons@, probes@, n) ==> any_hover(buttons@, probes@, n + 1));
            assert(presses(buttons@, probes@, n) ==> any_press(buttons@, probes@, n + 1));
            assert(any_hover(buttons@, probes@, n) ==> any_hover(buttons@, probes@, n + 1));
            assert(any_press(buttons@, probes@, n) ==> any_press(buttons@, probes@, n + 1));
        }
        i += 1;
    }
    proof {
        if config.wf() {
            lemma_presses_keep_wf(*config, buttons@, probes@, BAR_LEN as nat);
        }
    }
    SettingsUpdate { any_hovered, config: if pressed { Some(current) } else { None } }
}

} // verus!
