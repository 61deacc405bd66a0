//! Finding an item in the menus of an application on macOS, and pressing it.
//!
//! The menus lie in another process, and every question about them takes a
//! while. So the walk through them asks one question at a time and stops at the
//! first item that is wanted.
use vstd::prelude::*;

use crate::error::{Error, ErrorView};
use crate::text::{
    ascii_upper, optional_text, same_text, signed_decimal, signed_decimal_text, upper,
};

verus! {

/// How long an application that was shown has to make its menus ready, in
/// milliseconds.
pub const UNHIDE_WAIT: u64 = 300;

/// The error code of an application that does not answer in time.
pub const CANNOT_COMPLETE: i32 = -25204;

/// Which menu item is wanted.
pub enum Wanted {
    /// The item with this title in the menu with this title.
    Title { menu: String, item: String },
    /// The item with this character, and the command key alone, as its key
    /// equivalent.
    Command(char),
}

/// A menu item, as the application describes it.
pub struct ItemView {
    pub title: Option<Seq<char>>,
    pub cmd_char: Option<Seq<char>>,
    pub cmd_modifiers: Option<i32>,
}

/// An entry of the menu bar: its title, and the menus below it, where there
/// are any; each with its items, where there are any.
pub struct EntryView {
    pub title: Option<Seq<char>>,
    pub menus: Option<Seq<Option<Seq<ItemView>>>>,
}

/// The place of a menu item.
#[derive(Debug, Clone, Copy, PartialEq, Eq, Structural)]
pub struct ItemPlace {
    pub entry: usize,
    pub menu: usize,
    pub item: usize,
}

/// There is an item at this place.
pub open spec fn is_item(bar: Seq<EntryView>, entry: int, menu: int, item: int) -> bool {
    &&& 0 <= entry < bar.len()
    &&& bar[entry].menus matches Some(menus)
    &&& 0 <= menu < menus.len()
    &&& menus[menu] matches Some(items)
    &&& 0 <= item < items.len()
}

/// The item at a place where there is one.
pub open spec fn item_at(bar: Seq<EntryView>, entry: int, menu: int, item: int) -> ItemView {
    bar[entry].menus->0[menu]->0[item]
}

impl Wanted {
    /// The items below an entry with this title come into question. An entry
    /// without a title counts as one with an empty title.
    pub open spec fn allows(&self, title: Option<Seq<char>>) -> bool {
        match self {
            Wanted::Title { menu, .. } => match title {
                Some(title) => title == menu@,
                None => menu@.len() == 0,
            },
            Wanted::Command(_) => true,
        }
    }

    /// The text that an item must show first of all: its title, or the
    /// character of its key equivalent.
    pub open spec fn shows(&self, item: ItemView) -> bool {
        match self {
            Wanted::Title { item: wanted, .. } => item.title == Some(wanted@),
            Wanted::Command(c) => item.cmd_char == Some(seq![ascii_upper(*c)]),
        }
    }

    /// The item is the wanted one.
    pub open spec fn is_met_by(&self, title: Option<Seq<char>>, item: ItemView) -> bool {
        &&& self.allows(title)
        &&& self.shows(item)
        &&& self is Command ==> item.cmd_modifiers == Some(0i32)
    }

    /// There is an item at this place, and it is the wanted one.
    pub open spec fn is_met_at(
        &self,
        bar: Seq<EntryView>,
        entry: int,
        menu: int,
        item: int,
    ) -> bool {
        is_item(bar, entry, menu, item) && self.is_met_by(
            bar[entry].title,
            item_at(bar, entry, menu, item),
        )
    }

    /// No wanted item comes before this place, in the order of the menu bar.
    pub open spec fn none_before(
        &self,
        bar: Seq<EntryView>,
        entry: int,
        menu: int,
        item: int,
    ) -> bool {
        forall|e: int, m: int, i: int|
            e < entry || (e == entry && (m < menu || (m == menu && i < item)))
                ==> !#[trigger] self.is_met_at(bar, e, m, i)
    }

    /// The wanted item at this place is the first one.
    pub open spec fn is_first_at(&self, bar: Seq<EntryView>, place: ItemPlace) -> bool {
        &&& self.is_met_at(bar, place.entry as int, place.menu as int, place.item as int)
        &&& self.none_before(bar, place.entry as int, place.menu as int, place.item as int)
    }

    /// What is wanted, in words.
    pub open spec fn words(&self) -> Seq<char> {
        match self {
            Wanted::Title { menu, item } => "'"@ + menu@ + "' > '"@ + item@ + "'"@,
            Wanted::Command(c) => "plain ⌘"@ + seq![*c] + " key equivalent"@,
        }
    }

    fn allows_entry(&self, title: &Option<String>) -> (yes: bool)
        ensures
            yes == self.allows(optional_text(*title)),
    {
        match self {
            Wanted::Title { menu, .. } => match title {
                Some(title) => same_text(title.as_str(), menu.as_str()),
                None => menu.as_str().is_empty(),
            },
            Wanted::Command(_) => true,
        }
    }

    fn is_title(&self) -> (yes: bool)
        ensures
            yes == (self is Title),
    {
        match self {
            Wanted::Title { .. } => true,
            Wanted::Command(_) => false,
        }
    }

    /// The error for a menu bar without the wanted item.
    pub fn not_found(&self) -> (error: Error)
        ensures
            error@ == ErrorView::Platform("no menu item matching "@ + self.words() + " found"@),
    {
        let words: String = match self {
            Wanted::Title { menu, item } => "'".to_string().concat(menu.as_str()).concat(
                "' > '",
            ).concat(item.as_str()).concat("'"),
            Wanted::Command(c) => {
                let mut text = "plain ⌘".to_string();
                text.push(*c);
                assert(text@ =~= "plain ⌘"@ + seq![*c]);
                text.concat(" key equivalent")
            },
        };
        Error::Platform(
            "no menu item matching ".to_string().concat(words.as_str()).concat(" found"),
        )
    }
}

/// A question to the application.
#[derive(Debug, Clone, Copy, PartialEq, Eq, Structural)]
pub enum Question {
    /// The title of an entry of the menu bar.
    EntryTitle(usize),
    /// The number of menus below an entry, if it has any children.
    Menus(usize),
    /// The number of items of a menu below an entry, if it has any children.
    Items(usize, usize),
    /// The title of an item.
    ItemTitle(ItemPlace),
    /// The character of the key equivalent of an item.
    CmdChar(ItemPlace),
    /// The modifiers of the key equivalent of an item.
    CmdModifiers(ItemPlace),
}

/// What the application says.
pub enum Answer {
    Text(Option<String>),
    Count(Option<usize>),
    Number(Option<i32>),
}

impl Answer {
    /// The answer is a text, and this one.
    pub open spec fn is_text(&self, text: Option<Seq<char>>) -> bool {
        self matches Answer::Text(said) && optional_text(*said) == text
    }

    /// The answer is what an application with this menu bar says.
    pub open spec fn is_true(&self, bar: Seq<EntryView>, question: Question) -> bool {
        match question {
            Question::EntryTitle(entry) => self.is_text(bar[entry as int].title),
            Question::Menus(entry) => match bar[entry as int].menus {
                Some(menus) => self matches Answer::Count(Some(count)) && count == menus.len(),
                None => self matches Answer::Count(None),
            },
            Question::Items(entry, menu) => match bar[entry as int].menus->0[menu as int] {
                Some(items) => self matches Answer::Count(Some(count)) && count == items.len(),
                None => self matches Answer::Count(None),
            },
            Question::ItemTitle(place) => self.is_text(place.described(bar).title),
            Question::CmdChar(place) => self.is_text(place.described(bar).cmd_char),
            Question::CmdModifiers(place) => *self == Answer::Number(
                place.described(bar).cmd_modifiers,
            ),
        }
    }
}

impl ItemPlace {
    /// The item at this place.
    pub open spec fn described(self, bar: Seq<EntryView>) -> ItemView {
        item_at(bar, self.entry as int, self.menu as int, self.item as int)
    }
}

/// How far a walk has come.
#[derive(Debug, Clone, Copy, PartialEq, Eq, Structural)]
pub enum Stage {
    /// At an entry of the menu bar.
    Entry { entry: usize },
    /// At the menus of an entry; `allowed` tells whether its items come into
    /// question.
    Menus { entry: usize, allowed: bool },
    /// At a menu, one of `menus` of the entry.
    Items { entry: usize, menu: usize, menus: usize, allowed: bool },
    /// At an item, one of `items` of the menu. `shown` tells whether it has
    /// shown the character of the key equivalent.
    Item { place: ItemPlace, menus: usize, items: usize, shown: bool },
    /// At the end, with the wanted item or without it.
    Over(Option<ItemPlace>),
}

/// Whether a text is the character `c` alone, as a capital letter where it is
/// an ASCII letter.
fn shows_char(text: &str, c: char) -> (yes: bool)
    ensures
        yes == (text@ == seq![ascii_upper(c)]),
{
    let mut wanted = String::new();
    wanted.push(upper(c));
    assert(wanted@ =~= seq![ascii_upper(c)]);
    same_text(text, wanted.as_str())
}

/// A walk through the menus of an application.
pub struct Walk {
    pub wanted: Wanted,
    /// The number of entries of the menu bar.
    pub entries: usize,
    pub stage: Stage,
}

impl Walk {
    /// What the walk has learned is true of a menu bar: the wanted item was
    /// not passed, and at the end it is the first one that was found.
    pub open spec fn fits(&self, bar: Seq<EntryView>) -> bool {
        &&& self.entries == bar.len()
        &&& match self.stage {
            Stage::Entry { entry } => {
                &&& entry < bar.len()
                &&& self.wanted.none_before(bar, entry as int, 0, 0)
            },
            Stage::Menus { entry, allowed } => {
                &&& entry < bar.len()
                &&& allowed == self.wanted.allows(bar[entry as int].title)
                &&& self.wanted.none_before(bar, entry as int, 0, 0)
            },
            Stage::Items { entry, menu, menus, allowed } => {
                &&& entry < bar.len()
                &&& allowed == self.wanted.allows(bar[entry as int].title)
                &&& bar[entry as int].menus matches Some(list)
                &&& menu < menus == list.len()
                &&& self.wanted.none_before(bar, entry as int, menu as int, 0)
            },
            Stage::Item { place, menus, items, shown } => {
                &&& is_item(bar, place.entry as int, place.menu as int, place.item as int)
                &&& self.wanted.allows(bar[place.entry as int].title)
                &&& menus == bar[place.entry as int].menus->0.len()
                &&& items == bar[place.entry as int].menus->0[place.menu as int]->0.len()
                &&& shown ==> self.wanted is Command && self.wanted.shows(place.described(bar))
                &&& self.wanted.none_before(
                    bar,
                    place.entry as int,
                    place.menu as int,
                    place.item as int,
                )
            },
            Stage::Over(Some(place)) => self.wanted.is_first_at(bar, place),
            Stage::Over(None) => forall|e: int, m: int, i: int|
                !#[trigger] self.wanted.is_met_at(bar, e, m, i),
        }
    }

    /// What is to be asked next, while the walk is not over.
    pub open spec fn asks(&self) -> Option<Question> {
        match self.stage {
            Stage::Entry { entry } => Some(Question::EntryTitle(entry)),
            Stage::Menus { entry, .. } => Some(Question::Menus(entry)),
            Stage::Items { entry, menu, .. } => Some(Question::Items(entry, menu)),
            Stage::Item { place, shown, .. } => match self.wanted {
                Wanted::Title { .. } => Some(Question::ItemTitle(place)),
                Wanted::Command(_) => if shown {
                    Some(Question::CmdModifiers(place))
                } else {
                    Some(Question::CmdChar(place))
                },
            },
            Stage::Over(_) => None,
        }
    }

    /// The number of menus below an entry.
    pub open spec fn menu_count(bar: Seq<EntryView>, entry: int) -> int {
        match bar[entry].menus {
            Some(menus) => menus.len() as int,
            None => 0,
        }
    }

    /// The number of items of a menu.
    pub open spec fn item_count(bar: Seq<EntryView>, entry: int, menu: int) -> int {
        match bar[entry].menus->0[menu] {
            Some(items) => items.len() as int,
            None => 0,
        }
    }

    /// How much of a menu bar lies ahead: entries, menus, items, questions.
    pub open spec fn ahead(&self, bar: Seq<EntryView>) -> (int, int, int, int) {
        match self.stage {
            Stage::Entry { entry } => (
                bar.len() - entry,
                Self::menu_count(bar, entry as int) + 2,
                0,
                0,
            ),
            Stage::Menus { entry, .. } => (
                bar.len() - entry,
                Self::menu_count(bar, entry as int) + 1,
                0,
                0,
            ),
            Stage::Items { entry, menu, menus, .. } => (
                bar.len() - entry,
                menus - menu,
                Self::item_count(bar, entry as int, menu as int) + 1,
                0,
            ),
            Stage::Item { place, menus, items, shown } => (
                bar.len() - place.entry,
                menus - place.menu,
                items - place.item,
                if shown {
                    0
                } else {
                    1
                },
            ),
            Stage::Over(_) => (0, 0, 0, 0),
        }
    }

    /// Less lies ahead of this walk than of the other one.
    pub open spec fn is_further(&self, before: Walk, bar: Seq<EntryView>) -> bool {
        decreases_to!(
            before.ahead(bar).0,
            before.ahead(bar).1,
            before.ahead(bar).2,
            before.ahead(bar).3
            => self.ahead(bar).0,
            self.ahead(bar).1,
            self.ahead(bar).2,
            self.ahead(bar).3
        )
    }

    /// A walk through a menu bar with this number of entries.
    pub fn new(wanted: Wanted, entries: usize) -> (walk: Walk)
        ensures
            walk.wanted == wanted,
            forall|bar: Seq<EntryView>| bar.len() == entries ==> #[trigger] walk.fits(bar),
    {
        let stage = if entries > 0 {
            Stage::Entry { entry: 0 }
        } else {
            Stage::Over(None)
        };
        Walk { wanted, entries, stage }
    }

    /// What is to be asked next; nothing once the walk is over.
    pub fn question(&self) -> (question: Option<Question>)
        ensures
            question == self.asks(),
    {
        match self.stage {
            Stage::Entry { entry } => Some(Question::EntryTitle(entry)),
            Stage::Menus { entry, .. } => Some(Question::Menus(entry)),
            Stage::Items { entry, menu, .. } => Some(Question::Items(entry, menu)),
            Stage::Item { place, shown, .. } => match self.wanted {
                Wanted::Title { .. } => Some(Question::ItemTitle(place)),
                Wanted::Command(_) => if shown {
                    Some(Question::CmdModifiers(place))
                } else {
                    Some(Question::CmdChar(place))
                },
            },
            Stage::Over(_) => None,
        }
    }

    /// Goes on behind an entry.
    fn pass_entry(&mut self, entry: usize)
        ensures
            final(self).wanted == old(self).wanted,
            final(self).entries == old(self).entries,
            forall|bar: Seq<EntryView>|
                {
                    &&& bar.len() == old(self).entries
                    &&& entry < bar.len()
                    &&& old(self).wanted.none_before(bar, entry + 1, 0, 0)
                } ==> #[trigger] final(self).fits(bar) && final(self).ahead(bar).0 < bar.len()
                    - entry,
    {
        if self.entries > 0 && entry < self.entries - 1 {
            self.stage = Stage::Entry { entry: entry + 1 };
        } else {
            self.stage = Stage::Over(None);
        }
    }

    /// Goes on behind a menu of an entry.
    fn pass_menu(&mut self, entry: usize, menu: usize, menus: usize, allowed: bool)
        ensures
            final(self).wanted == old(self).wanted,
            final(self).entries == old(self).entries,
            forall|bar: Seq<EntryView>|
                {
                    &&& bar.len() == old(self).entries
                    &&& entry < bar.len()
                    &&& allowed == old(self).wanted.allows(bar[entry as int].title)
                    &&& bar[entry as int].menus matches Some(list)
                    &&& menu < menus == list.len()
                    &&& old(self).wanted.none_before(bar, entry as int, menu + 1, 0)
                } ==> {
                    &&& #[trigger] final(self).fits(bar)
                    &&& final(self).ahead(bar).0 < bar.len() - entry || (final(self).ahead(bar).0
                        == bar.len() - entry && 0 <= final(self).ahead(bar).1 < menus - menu)
                },
    {
        if menus > 0 && menu < menus - 1 {
            self.stage = Stage::Items { entry, menu: menu + 1, menus, allowed };
        } else {
            self.pass_entry(entry);
        }
    }

    /// The item is one of those that come into question, and neither it nor
    /// one before it is wanted.
    spec fn passes(
        &self,
        bar: Seq<EntryView>,
        place: ItemPlace,
        menus: usize,
        items: usize,
    ) -> bool {
        &&& bar.len() == self.entries
        &&& is_item(bar, place.entry as int, place.menu as int, place.item as int)
        &&& self.wanted.allows(bar[place.entry as int].title)
        &&& menus == bar[place.entry as int].menus->0.len()
        &&& items == bar[place.entry as int].menus->0[place.menu as int]->0.len()
        &&& self.wanted.none_before(
            bar,
            place.entry as int,
            place.menu as int,
            place.item + 1,
        )
    }

    /// Less lies ahead than behind the item.
    spec fn has_passed(
        &self,
        bar: Seq<EntryView>,
        place: ItemPlace,
        menus: usize,
        items: usize,
    ) -> bool {
        let left = self.ahead(bar);
        left.0 < bar.len() - place.entry || (left.0 == bar.len() - place.entry && (0 <= left.1
            < menus - place.menu || (left.1 == menus - place.menu && 0 <= left.2 < items
            - place.item)))
    }

    /// Goes on behind an item of a menu.
    fn pass_item(&mut self, place: ItemPlace, menus: usize, items: usize)
        ensures
            final(self).wanted == old(self).wanted,
            final(self).entries == old(self).entries,
            forall|bar: Seq<EntryView>| #[trigger]
                old(self).passes(bar, place, menus, items) ==> {
                    &&& final(self).fits(bar)
                    &&& final(self).has_passed(bar, place, menus, items)
                },
    {
        if items > 0 && place.item < items - 1 {
            let next = ItemPlace { item: place.item + 1, ..place };
            self.stage = Stage::Item { place: next, menus, items, shown: false };
        } else {
            self.pass_menu(place.entry, place.menu, menus, true);
        }
        assert forall|bar: Seq<EntryView>| #[trigger]
            old(self).passes(bar, place, menus, items) implies self.fits(bar) && self.has_passed(
            bar,
            place,
            menus,
            items,
        ) by {
            if place.item >= items - 1 {
                assert(self.wanted.none_before(bar, place.entry as int, place.menu + 1, 0));
            }
            assert(self.fits(bar));
        }
    }

    /// Takes in what the application says to the question of the walk.
    pub fn answer(&mut self, answer: Answer)
        ensures
            final(self).wanted == old(self).wanted,
            old(self).asks() is None ==> *final(self) == *old(self),
            forall|bar: Seq<EntryView>| #[trigger]
                old(self).fits(bar) && old(self).asks() is Some && answer.is_true(
                    bar,
                    old(self).asks()->0,
                ) ==> final(self).fits(bar) && final(self).is_further(*old(self), bar),
    {
        match self.stage {
            Stage::Entry { entry } => {
                let title: Option<String> = match answer {
                    Answer::Text(title) => title,
                    _ => None,
                };
                let allowed: bool = self.wanted.allows_entry(&title);
                self.stage = Stage::Menus { entry, allowed };
            },
            Stage::Menus { entry, allowed } => {
                let menus: usize = match answer {
                    Answer::Count(Some(count)) => count,
                    _ => 0,
                };
                if menus > 0 {
                    self.stage = Stage::Items { entry, menu: 0, menus, allowed };
                } else {
                    self.pass_entry(entry);
                }
            },
            Stage::Items { entry, menu, menus, allowed } => {
                let items: usize = match answer {
                    Answer::Count(Some(count)) => count,
                    _ => 0,
                };
                if items > 0 && allowed {
                    let place = ItemPlace { entry, menu, item: 0 };
                    self.stage = Stage::Item { place, menus, items, shown: false };
                } else {
                    self.pass_menu(entry, menu, menus, allowed);
                }
            },
            Stage::Item { place, menus, items, shown } => {
                let shows: bool = match &self.wanted {
                    Wanted::Title { item, .. } => match &answer {
                        Answer::Text(Some(title)) => same_text(title.as_str(), item.as_str()),
                        _ => false,
                    },
                    Wanted::Command(c) => match &answer {
                        Answer::Text(Some(text)) => shows_char(text.as_str(), *c),
                        Answer::Number(Some(modifiers)) => shown && *modifiers == 0,
                        _ => false,
                    },
                };
                if !shows {
                    assert forall|bar: Seq<EntryView>| #[trigger]
                        self.fits(bar) && answer.is_true(
                            bar,
                            self.asks()->0,
                        ) implies self.passes(bar, place, menus, items) by {
                        assert(!self.wanted.is_met_at(
                            bar,
                            place.entry as int,
                            place.menu as int,
                            place.item as int,
                        ));
                    }
                    self.pass_item(place, menus, items);
                } else if shown || self.wanted.is_title() {
                    self.stage = Stage::Over(Some(place));
                } else {
                    self.stage = Stage::Item { place, menus, items, shown: true };
                }
            },
            Stage::Over(_) => {},
        }
        assert forall|bar: Seq<EntryView>| #[trigger]
            old(self).fits(bar) && old(self).asks() is Some && answer.is_true(
                bar,
                old(self).asks()->0,
            ) implies self.fits(bar) && self.is_further(*old(self), bar) by {
            assert(self.fits(bar));
            if let Stage::Item { place, menus, items, .. } = old(self).stage {
                if self.stage is Item && self.stage->place == place {
                    assert(self.is_further(*old(self), bar));
                } else if !(self.stage is Over) {
                    assert(self.has_passed(bar, place, menus, items));
                }
            }
        }
    }

    /// The place of the wanted item, once the walk is over and has found it.
    pub fn found(&self) -> (place: Option<ItemPlace>)
        ensures
            place == match self.stage {
                Stage::Over(place) => place,
                _ => None,
            },
    {
        match self.stage {
            Stage::Over(place) => place,
            _ => None,
        }
    }
}

/// What looking for the menu bar of an application came to.
#[derive(Debug, Clone, Copy, PartialEq, Eq, Structural)]
pub enum BarReply {
    /// The launcher has no permission to look at other applications.
    NotTrusted,
    /// There is no handle to the application.
    NoApplication,
    /// The menu bar could not be had; this is the error code.
    NoMenuBar(i32),
    /// The menu bar has no children.
    NoChildren,
    /// The number of entries of the menu bar.
    Entries(usize),
}

/// The number of entries of the menu bar, or why there is none.
pub open spec fn entries_found(reply: BarReply) -> Result<usize, ErrorView> {
    match reply {
        BarReply::NotTrusted => Err(
            ErrorView::Platform("accessibility permission not granted (AXIsProcessTrusted=false)"@),
        ),
        BarReply::NoApplication => Err(
            ErrorView::Platform("AXUIElementCreateApplication returned null"@),
        ),
        BarReply::NoMenuBar(code) => Err(
            ErrorView::Platform(
                if code == CANNOT_COMPLETE {
                    "app not responding to accessibility queries (kAXErrorCannotComplete)"@
                } else {
                    "app has no accessible menu bar (AXError "@ + signed_decimal(code as int) + ")"@
                },
            ),
        ),
        BarReply::NoChildren => Err(ErrorView::Platform("menu bar has no children"@)),
        BarReply::Entries(count) => Ok(count),
    }
}

/// The number of entries of the menu bar, or why there is none.
pub fn menu_entries(reply: BarReply) -> (entries: Result<usize, Error>)
    ensures
        match entries {
            Ok(count) => entries_found(reply) == Ok::<_, ErrorView>(count),
            Err(error) => entries_found(reply) == Err::<usize, _>(error@),
        },
{
    match reply {
        BarReply::NotTrusted => Err(
            Error::Platform(
                "accessibility permission not granted (AXIsProcessTrusted=false)".to_string(),
            ),
        ),
        BarReply::NoApplication => Err(
            Error::Platform("AXUIElementCreateApplication returned null".to_string()),
        ),
        BarReply::NoMenuBar(code) => {
            if code == CANNOT_COMPLETE {
                Err(
                    Error::Platform(
                        "app not responding to accessibility queries (kAXErrorCannotComplete)".to_string(),
                    ),
                )
            } else {
                let number = signed_decimal_text(code);
                Err(
                    Error::Platform(
                        "app has no accessible menu bar (AXError ".to_string().concat(
                            number.as_str(),
                        ).concat(")"),
                    ),
                )
            }
        },
        BarReply::NoChildren => Err(Error::Platform("menu bar has no children".to_string())),
        BarReply::Entries(count) => Ok(count),
    }
}

/// How far the press of an item that was found has come.
#[derive(Debug, Clone, Copy, PartialEq, Eq, Structural)]
pub enum PressStage {
    /// The item was asked whether it is enabled.
    Found,
    /// The application was shown, and the item asked again.
    Shown,
    /// The item was pressed.
    Pressed,
}

/// What was heard of an item.
#[derive(Debug, Clone, Copy, PartialEq, Eq, Structural)]
pub enum PressEvent {
    /// Whether it is enabled, where it says so.
    Enabled(Option<bool>),
    /// The error code of the press; zero is the code for success.
    Code(i32),
}

/// What to do next about an item.
pub enum PressStep {
    /// Show the application without bringing it to the front, and ask the item
    /// again after [`UNHIDE_WAIT`] milliseconds: the stage is then
    /// [`PressStage::Shown`]. A hidden application may leave its items disabled.
    Show,
    /// Press the item: the stage is then [`PressStage::Pressed`].
    Press,
    /// The item was pressed.
    Done,
    /// The item cannot be pressed.
    Failed(Error),
    /// This cannot be heard at this stage: nothing is to be done.
    Nothing,
}

/// A [`PressStep`], with its error as a view.
pub enum PressStepView {
    Show,
    Press,
    Done,
    Failed(ErrorView),
    Nothing,
}

impl View for PressStep {
    type V = PressStepView;

    open spec fn view(&self) -> PressStepView {
        match self {
            PressStep::Show => PressStepView::Show,
            PressStep::Press => PressStepView::Press,
            PressStep::Done => PressStepView::Done,
            PressStep::Failed(error) => PressStepView::Failed(error@),
            PressStep::Nothing => PressStepView::Nothing,
        }
    }
}

/// What to do next about the item with this title.
pub open spec fn press_next(
    title: Seq<char>,
    stage: PressStage,
    event: PressEvent,
) -> PressStepView {
    match (stage, event) {
        (PressStage::Found, PressEvent::Enabled(enabled)) => if enabled == Some(false) {
            PressStepView::Show
        } else {
            PressStepView::Press
        },
        (PressStage::Shown, PressEvent::Enabled(enabled)) => if enabled == Some(false) {
            PressStepView::Failed(
                ErrorView::Platform(
                    "menu item '"@ + title + "' is disabled (even after unhide)"@,
                ),
            )
        } else {
            PressStepView::Press
        },
        (PressStage::Pressed, PressEvent::Code(code)) => if code == 0 {
            PressStepView::Done
        } else {
            PressStepView::Failed(
                ErrorView::Platform(
                    "AXPress on menu item '"@ + title + "' failed (AXError "@ + signed_decimal(
                        code as int,
                    ) + ")"@,
                ),
            )
        },
        _ => PressStepView::Nothing,
    }
}

/// What to do next about the item with this title.
pub fn press_step(title: &str, stage: PressStage, event: PressEvent) -> (step: PressStep)
    ensures
        step@ == press_next(title@, stage, event),
{
    match (stage, event) {
        (PressStage::Found, PressEvent::Enabled(Some(false))) => PressStep::Show,
        (PressStage::Shown, PressEvent::Enabled(Some(false))) => PressStep::Failed(
            Error::Platform(
                "menu item '".to_string().concat(title).concat(
                    "' is disabled (even after unhide)",
                ),
            ),
        ),
        (PressStage::Found, PressEvent::Enabled(_)) => PressStep::Press,
        (PressStage::Shown, PressEvent::Enabled(_)) => PressStep::Press,
        (PressStage::Pressed, PressEvent::Code(code)) => {
            if code == 0 {
                PressStep::Done
            } else {
                let number = signed_decimal_text(code);
                PressStep::Failed(
                    Error::Platform(
                        "AXPress on menu item '".to_string().concat(title).concat(
                            "' failed (AXError ",
                        ).concat(number.as_str()).concat(")"),
                    ),
                )
            }
        },
        (PressStage::Pressed, PressEvent::Enabled(_)) => PressStep::Nothing,
        (PressStage::Found, PressEvent::Code(_)) => PressStep::Nothing,
        (PressStage::Shown, PressEvent::Code(_)) => PressStep::Nothing,
    }
}

/// The stage that a step leads to, where it does not end the matter.
pub open spec fn stage_after(stage: PressStage, step: PressStepView) -> PressStage {
    match step {
        PressStepView::Show => PressStage::Shown,
        PressStepView::Press => PressStage::Pressed,
        _ => stage,
    }
}

/// The steps that a run of events leads to, in order.
pub open spec fn press_run(
    title: Seq<char>,
    stage: PressStage,
    events: Seq<PressEvent>,
) -> Seq<PressStepView>
    decreases events.len(),
{
    if events.len() == 0 {
        seq![]
    } else {
        let step = press_next(title, stage, events[0]);
        seq![step] + press_run(title, stage_after(stage, step), events.skip(1))
    }
}

proof fn steps_of_run(
    title: Seq<char>,
    stage: PressStage,
    events: Seq<PressEvent>,
    i: int,
)
    requires
        0 <= i < events.len(),
    ensures
        press_run(title, stage, events).len() == events.len(),
        press_run(title, stage, events)[i] is Press ==> stage != PressStage::Pressed,
        press_run(title, stage, events)[i] is Show ==> stage == PressStage::Found,
    decreases events.len(),
{
    let step = press_next(title, stage, events[0]);
    let rest = events.skip(1);
    let behind = press_run(title, stage_after(stage, step), rest);
    if rest.len() > 0 {
        let k = if i > 0 {
            i - 1
        } else {
            0
        };
        steps_of_run(title, stage_after(stage, step), rest, k);
    }
    assert(press_run(title, stage, events) =~= seq![step] + behind);
    if i > 0 {
        assert(press_run(title, stage, events)[i] == behind[i - 1]);
    }
}

/// Whatever is heard of an item, it is pressed once at most; its application is
/// shown once at most, and only before the press.
pub proof fn an_item_is_pressed_once(
    title: Seq<char>,
    stage: PressStage,
    events: Seq<PressEvent>,
    i: int,
    j: int,
)
    requires
        0 <= i < j < events.len(),
    ensures
        ({
            let steps = press_run(title, stage, events);
            &&& steps.len() == events.len()
            &&& steps[i] is Press ==> !(steps[j] is Press) && !(steps[j] is Show)
            &&& steps[i] is Show ==> !(steps[j] is Show)
        }),
    decreases events.len(),
{
    let step = press_next(title, stage, events[0]);
    let next = stage_after(stage, step);
    let rest = events.skip(1);
    let behind = press_run(title, next, rest);
    let all = press_run(title, stage, events);
    assert(all =~= seq![step] + behind);
    steps_of_run(title, next, rest, j - 1);
    assert(all[j] == behind[j - 1]);
    if i > 0 {
        an_item_is_pressed_once(title, next, rest, i - 1, j - 1);
        assert(all[i] == behind[i - 1]);
    }
}

/// The application of an item that says it is enabled, or says nothing, is left
/// as it is and the item pressed at once; one that says it is disabled is not
/// pressed before its application was shown.
pub proof fn only_a_disabled_item_is_shown_first(title: Seq<char>, enabled: Option<bool>)
    ensures
        press_next(title, PressStage::Found, PressEvent::Enabled(enabled)) is Show <==> enabled
            == Some(false),
        press_next(title, PressStage::Found, PressEvent::Enabled(enabled)) is Press <==> enabled
            != Some(false),
{
}

/// A walk that is over has found the first wanted item of every menu bar that
/// fits what it was told, or there is none.
pub proof fn a_walk_ends_at_the_first_item(walk: Walk, bar: Seq<EntryView>)
    requires
        walk.fits(bar),
        walk.asks() is None,
    ensures
        match walk.stage {
            Stage::Over(Some(place)) => walk.wanted.is_first_at(bar, place),
            Stage::Over(None) => forall|e: int, m: int, i: int|
                !#[trigger] walk.wanted.is_met_at(bar, e, m, i),
            _ => false,
        },
{
}

/// A menu bar has one first wanted item at most.
pub proof fn first_item_is_unique(
    wanted: Wanted,
    bar: Seq<EntryView>,
    one: ItemPlace,
    other: ItemPlace,
)
    requires
        wanted.is_first_at(bar, one),
        wanted.is_first_at(bar, other),
    ensures
        one == other,
{
}

/// A key equivalent with more than the command key is never taken for a plain
/// one, and the title of the entry has no say in it.
pub proof fn only_the_plain_chord_counts(c: char, title: Option<Seq<char>>, item: ItemView)
    ensures
        Wanted::Command(c).is_met_by(title, item) <==> item.cmd_char == Some(seq![ascii_upper(c)])
            && item.cmd_modifiers == Some(0i32),
{
}

/// An item is wanted by its title exactly where its own title is the wanted one,
/// letter for letter, and so is the title of its entry; an entry without a title
/// counts where no letter is wanted. Its key equivalent has no say in it.
pub proof fn only_the_whole_title_counts(
    menu: String,
    item: String,
    title: Option<Seq<char>>,
    found: ItemView,
)
    ensures
        (Wanted::Title { menu, item }).is_met_by(title, found) <==> (title == Some(menu@) || (
        title is None && menu@.len() == 0)) && found.title == Some(item@),
{
}

/// Two titles for which the same item of the same entry is wanted are the same.
pub proof fn an_item_answers_to_one_title(
    menu: String,
    one: String,
    other: String,
    title: Option<Seq<char>>,
    found: ItemView,
)
    requires
        (Wanted::Title { menu, item: one }).is_met_by(title, found),
        (Wanted::Title { menu, item: other }).is_met_by(title, found),
    ensures
        one@ == other@,
{
}

/// The entries that come into question are all of them for a key equivalent,
/// and those with the wanted title for a title; an item first shows its title or
/// the character of its key equivalent.
pub proof fn what_comes_into_question(
    menu: String,
    item: String,
    c: char,
    title: Seq<char>,
    found: ItemView,
)
    ensures
        (Wanted::Title { menu, item }).allows(Some(title)) <==> title == menu@,
        (Wanted::Title { menu, item }).allows(None) <==> menu@.len() == 0,
        Wanted::Command(c).allows(Some(title)),
        Wanted::Command(c).allows(None),
        (Wanted::Title { menu, item }).shows(found) <==> found.title == Some(item@),
        Wanted::Command(c).shows(found) <==> found.cmd_char == Some(seq![ascii_upper(c)]),
{
}

/// An item is wanted at a place exactly where the place lies within the menu
/// bar, and the item there is wanted below the title of its own entry.
pub proof fn a_place_holds_the_wanted_item(
    wanted: Wanted,
    bar: Seq<EntryView>,
    entry: int,
    menu: int,
    item: int,
)
    ensures
        wanted.is_met_at(bar, entry, menu, item) <==> {
            &&& 0 <= entry < bar.len()
            &&& bar[entry].menus is Some
            &&& 0 <= menu < bar[entry].menus->0.len()
            &&& bar[entry].menus->0[menu] is Some
            &&& 0 <= item < bar[entry].menus->0[menu]->0.len()
            &&& wanted.is_met_by(bar[entry].title, bar[entry].menus->0[menu]->0[item])
        },
{
}

/// The first wanted item comes before every other one: by its entry, or by its
/// menu in the same entry, or by its place in the same menu.
pub proof fn the_first_item_comes_before_all_others(
    wanted: Wanted,
    bar: Seq<EntryView>,
    place: ItemPlace,
)
    ensures
        wanted.is_first_at(bar, place) <==> {
            &&& wanted.is_met_at(bar, place.entry as int, place.menu as int, place.item as int)
            &&& forall|e: int, m: int, i: int| #[trigger]
                wanted.is_met_at(bar, e, m, i) ==> {
                    ||| place.entry < e
                    ||| place.entry == e && place.menu < m
                    ||| place.entry == e && place.menu == m && place.item <= i
                }
        },
{
}

/// A true answer says what the menu bar holds at the place of the question.
pub proof fn true_answers_describe_the_menu_bar(
    answer: Answer,
    bar: Seq<EntryView>,
    entry: usize,
    menu: usize,
    place: ItemPlace,
)
    ensures
        answer.is_true(bar, Question::EntryTitle(entry)) <==> match answer {
            Answer::Text(Some(text)) => bar[entry as int].title == Some(text@),
            Answer::Text(None) => bar[entry as int].title is None,
            _ => false,
        },
        answer.is_true(bar, Question::Menus(entry)) <==> match answer {
            Answer::Count(Some(count)) => bar[entry as int].menus is Some && count
                == bar[entry as int].menus->0.len(),
            Answer::Count(None) => bar[entry as int].menus is None,
            _ => false,
        },
        answer.is_true(bar, Question::Items(entry, menu)) <==> match answer {
            Answer::Count(Some(count)) => bar[entry as int].menus->0[menu as int] is Some && count
                == bar[entry as int].menus->0[menu as int]->0.len(),
            Answer::Count(None) => bar[entry as int].menus->0[menu as int] is None,
            _ => false,
        },
        ({
            let item = bar[place.entry as int].menus->0[place.menu as int]->0[place.item as int];
            &&& answer.is_true(bar, Question::ItemTitle(place)) <==> match answer {
                Answer::Text(Some(text)) => item.title == Some(text@),
                Answer::Text(None) => item.title is None,
                _ => false,
            }
            &&& answer.is_true(bar, Question::CmdChar(place)) <==> match answer {
                Answer::Text(Some(text)) => item.cmd_char == Some(text@),
                Answer::Text(None) => item.cmd_char is None,
                _ => false,
            }
            &&& answer.is_true(bar, Question::CmdModifiers(place)) <==> match answer {
                Answer::Number(number) => item.cmd_modifiers == number,
                _ => false,
            }
        }),
{
}

/// A walk asks about the very place that it has come to, and an item for its
/// modifiers only once it has shown the character.
pub proof fn a_walk_asks_about_its_place(walk: Walk)
    ensures
        walk.asks() is None <==> walk.stage is Over,
        match walk.asks() {
            Some(Question::EntryTitle(e)) => walk.stage matches Stage::Entry { entry } && e
                == entry,
            Some(Question::Menus(e)) => walk.stage matches Stage::Menus { entry, .. } && e == entry,
            Some(Question::Items(e, m)) => walk.stage matches Stage::Items { entry, menu, .. } && e
                == entry && m == menu,
            Some(Question::ItemTitle(p)) => walk.wanted is Title && (
            walk.stage matches Stage::Item { place, .. } && p == place),
            Some(Question::CmdChar(p)) => walk.wanted is Command && (
            walk.stage matches Stage::Item { place, shown, .. } && p == place && !shown),
            Some(Question::CmdModifiers(p)) => walk.wanted is Command && (
            walk.stage matches Stage::Item { place, shown, .. } && p == place && shown),
            None => true,
        },
{
}

/// A walk that has come further asks something else.
pub proof fn no_question_is_asked_twice(walk: Walk, before: Walk, bar: Seq<EntryView>)
    requires
        walk.wanted == before.wanted,
        walk.fits(bar),
        before.fits(bar),
        walk.is_further(before, bar),
    ensures
        walk.asks() is Some ==> walk.asks() != before.asks(),
{
}

/// A walk that has come further than one that had come further than a third has
/// come further than the third.
pub proof fn walks_only_go_on(last: Walk, middle: Walk, first: Walk, bar: Seq<EntryView>)
    requires
        last.is_further(middle, bar),
        middle.is_further(first, bar),
    ensures
        last.is_further(first, bar),
        !first.is_further(last, bar),
{
}

/// A walk starts at the first entry with nothing passed: every item may still be
/// the wanted one.
pub proof fn a_walk_starts_with_nothing_passed(wanted: Wanted, bar: Seq<EntryView>)
    ensures
        wanted.none_before(bar, 0, 0, 0),
{
}

/// What is wanted is named by both titles, or by the character.
pub proof fn what_is_wanted_is_named(menu: String, item: String, c: char)
    ensures
        (Wanted::Title { menu, item }).words() == "'"@ + menu@ + "' > '"@ + item@ + "'"@,
        Wanted::Command(c).words() == "plain ⌘"@ + seq![c] + " key equivalent"@,
{
}

/// The number of entries is what the application says, and without it each
/// cause has an error of its own, which names the code where there is one.
pub proof fn a_missing_menu_bar_is_explained(count: usize, code: i32)
    ensures
        entries_found(BarReply::Entries(count)) == Ok::<_, ErrorView>(count),
        entries_found(BarReply::NotTrusted) == Err::<usize, _>(
            ErrorView::Platform("accessibility permission not granted (AXIsProcessTrusted=false)"@),
        ),
        entries_found(BarReply::NoApplication) == Err::<usize, _>(
            ErrorView::Platform("AXUIElementCreateApplication returned null"@),
        ),
        entries_found(BarReply::NoChildren) == Err::<usize, _>(
            ErrorView::Platform("menu bar has no children"@),
        ),
        code == -25204 ==> entries_found(BarReply::NoMenuBar(code)) == Err::<usize, _>(
            ErrorView::Platform(
                "app not responding to accessibility queries (kAXErrorCannotComplete)"@,
            ),
        ),
        code != -25204 ==> entries_found(BarReply::NoMenuBar(code)) == Err::<usize, _>(
            ErrorView::Platform(
                "app has no accessible menu bar (AXError "@ + signed_decimal(code as int) + ")"@,
            ),
        ),
        UNHIDE_WAIT == 300,
{
}

/// An item that is still disabled after its application was shown fails, any
/// other is pressed; a press is done exactly where its code is zero, and fails
/// with the title and the code where it is not.
pub proof fn a_press_ends_as_its_code_says(title: Seq<char>, enabled: Option<bool>, code: i32)
    ensures
        press_next(title, PressStage::Shown, PressEvent::Enabled(enabled)) is Press <==> enabled
            != Some(false),
        enabled == Some(false) ==> press_next(title, PressStage::Shown, PressEvent::Enabled(enabled))
            == PressStepView::Failed(
            ErrorView::Platform("menu item '"@ + title + "' is disabled (even after unhide)"@),
        ),
        press_next(title, PressStage::Pressed, PressEvent::Code(code)) is Done <==> code == 0,
        code != 0 ==> press_next(title, PressStage::Pressed, PressEvent::Code(code))
            == PressStepView::Failed(
            ErrorView::Platform(
                "AXPress on menu item '"@ + title + "' failed (AXError "@ + signed_decimal(
                    code as int,
                ) + ")"@,
            ),
        ),
        press_next(title, PressStage::Pressed, PressEvent::Enabled(enabled)) is Nothing,
        press_next(title, PressStage::Found, PressEvent::Code(code)) is Nothing,
        press_next(title, PressStage::Shown, PressEvent::Code(code)) is Nothing,
{
}

/// A run takes one step for each event, each from the stage that the steps
/// before it led to.
pub proof fn a_run_goes_step_by_step(
    title: Seq<char>,
    stage: PressStage,
    first: PressEvent,
    rest: Seq<PressEvent>,
)
    ensures
        press_run(title, stage, Seq::empty()).len() == 0,
        ({
            let run = press_run(title, stage, seq![first] + rest);
            &&& run.len() == 1 + press_run(title, stage, rest).len()
            &&& run[0] == press_next(title, stage, first)
            &&& run[0] is Show ==> run.skip(1) == press_run(title, PressStage::Shown, rest)
            &&& run[0] is Press ==> run.skip(1) == press_run(title, PressStage::Pressed, rest)
            &&& !(run[0] is Show) && !(run[0] is Press) ==> run.skip(1) == press_run(
                title,
                stage,
                rest,
            )
        }),
{
    let events = seq![first] + rest;
    let step = press_next(title, stage, first);
    assert(events.skip(1) =~= rest);
    let behind = press_run(title, stage_after(stage, step), rest);
    assert(press_run(title, stage, events).skip(1) =~= behind);
    if rest.len() > 0 {
        steps_of_run(title, stage_after(stage, step), rest, 0);
        steps_of_run(title, stage, rest, 0);
    }
}

/// A walk that has asked an item for its title ends there exactly where the
/// answer is the wanted title, letter for letter.
pub proof fn an_item_is_taken_by_its_whole_title(
    walk: &mut Walk,
    bar: Seq<EntryView>,
    place: ItemPlace,
    menu: String,
    item: String,
    title: String,
)
    requires
        old(walk).wanted == (Wanted::Title { menu, item }),
        old(walk).fits(bar),
        old(walk).asks() == Some(Question::ItemTitle(place)),
        bar[place.entry as int].menus->0[place.menu as int]->0[place.item as int].title == Some(
            title@,
        ),
        call_ensures(Walk::answer, (walk, Answer::Text(Some(title))), ()),
    ensures
        final(walk).stage == Stage::Over(Some(place)) <==> title@ == item@,
{
    let (before, after) = (*old(walk), *final(walk));
    assert(Answer::Text(Some(title)).is_true(bar, Question::ItemTitle(place)));
    assert(before.fits(bar));
    assert(after.fits(bar) && after.is_further(before, bar));
    let (e, m, i) = (place.entry as int, place.menu as int, place.item as int);
    assert(before.wanted.is_met_at(bar, e, m, i) <==> title@ == item@);
    if title@ == item@ {
        match after.stage {
            Stage::Over(Some(found)) => {
                assert(after.wanted.is_met_at(
                    bar,
                    found.entry as int,
                    found.menu as int,
                    found.item as int,
                ));
                assert(found == place);
            },
            _ => {
                assert(after.wanted.is_met_at(bar, e, m, i));
            },
        }
    }
}

/// A walk that has asked an item with the wanted character for its modifiers ends
/// there exactly where the command key stands alone.
pub proof fn an_item_is_taken_by_its_plain_chord(
    walk: &mut Walk,
    bar: Seq<EntryView>,
    place: ItemPlace,
    modifiers: Option<i32>,
)
    requires
        old(walk).fits(bar),
        old(walk).asks() == Some(Question::CmdModifiers(place)),
        bar[place.entry as int].menus->0[place.menu as int]->0[place.item as int].cmd_modifiers
            == modifiers,
        call_ensures(Walk::answer, (walk, Answer::Number(modifiers)), ()),
    ensures
        final(walk).stage == Stage::Over(Some(place)) <==> modifiers == Some(0i32),
{
    let (before, after) = (*old(walk), *final(walk));
    assert(Answer::Number(modifiers).is_true(bar, Question::CmdModifiers(place)));
    assert(before.fits(bar));
    assert(after.fits(bar) && after.is_further(before, bar));
    let (e, m, i) = (place.entry as int, place.menu as int, place.item as int);
    assert(before.wanted.is_met_at(bar, e, m, i) <==> modifiers == Some(0i32));
    if modifiers == Some(0i32) {
        match after.stage {
            Stage::Over(Some(found)) => {
                assert(after.wanted.is_met_at(
                    bar,
                    found.entry as int,
                    found.menu as int,
                    found.item as int,
                ));
                assert(found == place);
            },
            _ => {
                assert(after.wanted.is_met_at(bar, e, m, i));
            },
        }
    }
}

/// A walk that is over tells the place of what it has found, and one that is not
/// tells none.
pub proof fn a_walk_tells_what_it_has_found(walk: Walk, place: Option<ItemPlace>)
    requires
        call_ensures(Walk::found, (&walk,), place),
    ensures
        walk.stage matches Stage::Over(found) ==> place == found,
        !(walk.stage is Over) ==> place is None,
{
}

/// The error for an item that is not there names both titles, or the character,
/// that were wanted.
pub proof fn what_was_not_found_is_named(
    menu: String,
    item: String,
    c: char,
    by_title: Error,
    by_chord: Error,
)
    requires
        call_ensures(Wanted::not_found, (&(Wanted::Title { menu, item }),), by_title),
        call_ensures(Wanted::not_found, (&Wanted::Command(c),), by_chord),
    ensures
        by_title@ == ErrorView::Platform(
            "no menu item matching "@ + ("'"@ + menu@ + "' > '"@ + item@ + "'"@) + " found"@,
        ),
        by_chord@ == ErrorView::Platform(
            "no menu item matching "@ + ("plain ⌘"@ + seq![c] + " key equivalent"@) + " found"@,
        ),
{
}

} // verus!
