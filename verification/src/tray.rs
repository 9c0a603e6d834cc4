//! The tray menu's contents: a status line, quick actions and the
//! discovered peers. Building the actual menu is left to the runtime.
use vstd::prelude::*;
use vstd::string::*;
use crate::coordinator::{spec_status_text, Status};
use crate::fingerprint::push_char;
use crate::network::Peer;

verus! {

/// Lightweight peer view we need for the menu.
pub struct PeerView {
    pub name: String,
    pub online: bool,
}

/// One menu line: an item with an id, a label and whether it can be
/// clicked, or a separator.
pub enum MenuEntry {
    Item { id: String, label: String, enabled: bool },
    Separator,
}

/// A menu line as (is separator, id, label, enabled).
pub open spec fn entry_model(e: MenuEntry) -> (bool, Seq<char>, Seq<char>, bool) {
    match e {
        MenuEntry::Item { id, label, enabled } => (false, id@, label@, enabled),
        MenuEntry::Separator => (true, Seq::empty(), Seq::empty(), false),
    }
}

pub open spec fn item(id: Seq<char>, label: Seq<char>, enabled: bool) -> (bool, Seq<char>, Seq<char>, bool) {
    (false, id, label, enabled)
}

pub open spec fn separator() -> (bool, Seq<char>, Seq<char>, bool) {
    (true, Seq::empty(), Seq::empty(), false)
}

/// The peers shown in the tray: every discovered peer by name, online.
pub fn peer_views(peers: &Vec<Peer>) -> (views: Vec<PeerView>)
    ensures
        views@.len() == peers@.len(),
        forall|i: int| 0 <= i < peers@.len() ==> #[trigger] views@[i].name == peers@[i].name && views@[i].online,
{
    let mut views: Vec<PeerView> = Vec::new();
    let mut i: usize = 0;
    while i < peers.len()
        invariant
            i <= peers@.len(),
            views@.len() == i,
            forall|j: int| 0 <= j < i ==> #[trigger] views@[j].name == peers@[j].name && views@[j].online,
        decreases peers@.len() - i,
    {
        views.push(PeerView { name: peers[i].name.clone(), online: true });
        i = i + 1;
    }
    views
}

/// The label of the pause item: "Resume sharing" while paused.
pub open spec fn spec_pause_label(status: Status) -> Seq<char> {
    if status == Status::Paused { "Resume sharing"@ } else { "Pause sharing"@ }
}

pub fn pause_label(status: Status) -> (label: &'static str)
    ensures
        label@ == spec_pause_label(status),
{
    if status == Status::Paused { "Resume sharing" } else { "Pause sharing" }
}

/// The decimal digits of `n`.
pub open spec fn spec_decimal(n: nat) -> Seq<char>
    decreases n,
{
    let d = "0123456789"@[(n % 10) as int];
    if n < 10 {
        seq![d]
    } else {
        spec_decimal(n / 10).push(d)
    }
}

pub fn decimal(n: usize) -> (s: String)
    ensures
        s@ == spec_decimal(n as nat),
    decreases n,
{
    let digits: [char; 10] = ['0', '1', '2', '3', '4', '5', '6', '7', '8', '9'];
    proof {
        reveal_strlit("0123456789");
        assert(digits@ =~= "0123456789"@);
    }
    let d = digits[n % 10];
    if n < 10 {
        let mut s = String::new();
        push_char(&mut s, d);
        s
    } else {
        let mut s = decimal(n / 10);
        push_char(&mut s, d);
        s
    }
}

/// The number that a string of decimal digits spells.
pub open spec fn spec_digits_value(s: Seq<char>) -> int
    decreases s.len(),
{
    if s.len() == 0 {
        0
    } else {
        spec_digits_value(s.drop_last()) * 10 + (s.last() as int - '0' as int)
    }
}

/// The decimal form of `n` spells `n`: it is made of the digits `0` to `9`
/// only, reads back as `n`, and has no leading zero (a single `0` for zero).
pub proof fn lemma_decimal_spells_number(n: nat)
    ensures
        spec_decimal(n).len() > 0,
        forall|k: int| 0 <= k < spec_decimal(n).len() ==> '0' <= #[trigger] spec_decimal(n)[k] <= '9',
        spec_digits_value(spec_decimal(n)) == n,
        spec_decimal(n)[0] == '0' ==> n == 0,
    decreases n,
{
    reveal_strlit("0123456789");
    let digits = "0123456789"@;
    assert(digits =~= seq!['0', '1', '2', '3', '4', '5', '6', '7', '8', '9']);
    let k = (n % 10) as int;
    assert(digits[k] as int == '0' as int + k);
    assert(spec_decimal(n).last() == digits[k]);
    assert(spec_decimal(n).drop_last().len() == spec_decimal(n).len() - 1);
    if n < 10 {
        assert(spec_decimal(n).drop_last() =~= Seq::<char>::empty());
        assert(spec_digits_value(Seq::<char>::empty()) == 0);
    }
    if n >= 10 {
        lemma_decimal_spells_number(n / 10);
        let hi = spec_decimal(n / 10);
        assert(spec_decimal(n).drop_last() =~= hi);
        assert(spec_decimal(n)[0] == hi[0]);
        assert forall|j: int| 0 <= j < spec_decimal(n).len() implies '0' <= #[trigger] spec_decimal(n)[j] <= '9' by {
            if j < hi.len() {
                assert(spec_decimal(n)[j] == hi[j]);
            }
        }
        assert(spec_digits_value(spec_decimal(n)) == spec_digits_value(hi) * 10 + k);
        assert(n == (n / 10) * 10 + n % 10);
    }
}

/// A peer's line: a green dot when online, a red one when not, then its name.
pub open spec fn spec_peer_label(p: PeerView) -> Seq<char> {
    (if p.online { "\u{1F7E2}"@ } else { "\u{1F534}"@ }) + " "@ + p.name@
}

/// The whole menu, top to bottom.
pub open spec fn spec_menu(peers: Seq<PeerView>, status: Status) -> Seq<(bool, Seq<char>, Seq<char>, bool)> {
    seq![
        item("status"@, "Status: "@ + spec_status_text(status), false),
        separator(),
        item("open"@, "Open FlowControl"@, true),
        item("pause"@, spec_pause_label(status), true),
        separator(),
    ] + (if peers.len() == 0 {
        seq![item("peers-empty"@, "No peers discovered"@, false)]
    } else {
        Seq::new(peers.len(), |i: int| item("peer-"@ + spec_decimal(i as nat), spec_peer_label(peers[i]), false))
    }) + seq![separator(), item("about"@, "About FlowControl"@, true), item("quit"@, "Quit"@, true)]
}

fn menu_item(id: &str, label: String, enabled: bool) -> (e: MenuEntry)
    ensures
        entry_model(e) == item(id@, label@, enabled),
{
    MenuEntry::Item { id: String::from_str(id), label, enabled }
}

/// The menu's lines for the given peers and status.
pub fn menu_entries(peers: &Vec<PeerView>, status: Status) -> (menu: Vec<MenuEntry>)
    ensures
        menu@.len() == spec_menu(peers@, status).len(),
        forall|i: int| 0 <= i < menu@.len() ==> #[trigger] entry_model(menu@[i]) == spec_menu(peers@, status)[i],
{
    let ghost expected = spec_menu(peers@, status);
    let mut menu: Vec<MenuEntry> = Vec::new();
    menu.push(menu_item("status", String::from_str("Status: ").concat(status.as_str()), false));
    menu.push(MenuEntry::Separator);
    menu.push(menu_item("open", String::from_str("Open FlowControl"), true));
    menu.push(menu_item("pause", String::from_str(pause_label(status)), true));
    menu.push(MenuEntry::Separator);
    let ghost head = seq![
        item("status"@, "Status: "@ + spec_status_text(status), false),
        separator(),
        item("open"@, "Open FlowControl"@, true),
        item("pause"@, spec_pause_label(status), true),
        separator(),
    ];
    let ghost middle = if peers@.len() == 0 {
        seq![item("peers-empty"@, "No peers discovered"@, false)]
    } else {
        Seq::new(peers@.len(), |i: int| item("peer-"@ + spec_decimal(i as nat), spec_peer_label(peers@[i]), false))
    };
    let ghost tail = seq![separator(), item("about"@, "About FlowControl"@, true), item("quit"@, "Quit"@, true)];
    assert(expected =~= head + middle + tail);
    assert(menu@.len() == 5);
    assert(forall|i: int| 0 <= i < 5 ==> #[trigger] entry_model(menu@[i]) == head[i]);
    if peers.len() == 0 {
        menu.push(menu_item("peers-empty", String::from_str("No peers discovered"), false));
    } else {
        let mut i: usize = 0;
        while i < peers.len()
            invariant
                i <= peers@.len(),
                peers@.len() > 0,
                middle == Seq::new(peers@.len(), |k: int| item("peer-"@ + spec_decimal(k as nat), spec_peer_label(peers@[k]), false)),
                menu@.len() == 5 + i,
                forall|k: int| 0 <= k < 5 ==> #[trigger] entry_model(menu@[k]) == head[k],
                forall|k: int| 5 <= k < 5 + i ==> #[trigger] entry_model(menu@[k]) == middle[k - 5],
            decreases peers@.len() - i,
        {
            let p = &peers[i];
            let dot = if p.online { "\u{1F7E2}" } else { "\u{1F534}" };
            let label = String::from_str(dot).concat(" ").concat(p.name.as_str());
            let id = String::from_str("peer-").concat(decimal(i).as_str());
            menu.push(MenuEntry::Item { id, label, enabled: false });
            i = i + 1;
        }
    }
    assert(menu@.len() == 5 + middle.len());
    assert(forall|k: int| 5 <= k < 5 + middle.len() ==> #[trigger] entry_model(menu@[k]) == middle[k - 5]);
    let ghost before = menu@.len();
    menu.push(MenuEntry::Separator);
    menu.push(menu_item("about", String::from_str("About FlowControl"), true));
    menu.push(menu_item("quit", String::from_str("Quit"), true));
    assert forall|i: int| 0 <= i < menu@.len() implies #[trigger] entry_model(menu@[i]) == expected[i] by {
        if i < 5 {
            assert(entry_model(menu@[i]) == head[i]);
        } else if i < before {
            assert(entry_model(menu@[i]) == middle[i - 5]);
        } else {
            assert(entry_model(menu@[i]) == tail[i - before]);
        }
    }
    menu
}

} // verus!
