//! Menu templates: what a menu bar is made of, independent of the toolkit
//! that draws it, and the conversion of a menu label into a lookup key.
use vstd::prelude::*;

verus! {

/// A menu template.
pub enum TMenu {
    /// A menu: its text, and whether it is disabled.
    Menu(String, bool),
    /// A menu item: its text, whether it is disabled, and whether it is checked.
    MenuItem(String, bool, bool),
    /// A separator, named by its text.
    MenuSeparator(String),
    /// A context menu: its text, and whether it is disabled.
    ContextMenu(String, bool),
    /// No menu.
    NoMenu,
}

/// The text of a template; `NoMenu` has none.
pub open spec fn menu_text(m: TMenu) -> Seq<char> {
    match m {
        TMenu::Menu(t, _) => t@,
        TMenu::MenuItem(t, _, _) => t@,
        TMenu::MenuSeparator(t) => t@,
        TMenu::ContextMenu(t, _) => t@,
        TMenu::NoMenu => Seq::empty(),
    }
}

impl TMenu {
    /// The text of the template.
    pub fn get_text(&self) -> (r: &str)
        ensures
            r@ == menu_text(*self),
    {
        proof {
            reveal_strlit("");
        }
        match self {
            TMenu::Menu(text, _) => text.as_str(),
            TMenu::MenuItem(text, _, _) => text.as_str(),
            TMenu::MenuSeparator(text) => text.as_str(),
            TMenu::ContextMenu(text, _) => text.as_str(),
            _ => "",
        }
    }
}

/// A menu with its items, gathered before the toolkit builds them.
pub struct BulkMenuBuilder {
    top: TMenu,
    items: Vec<TMenu>,
}

impl BulkMenuBuilder {
    pub closed spec fn spec_top(&self) -> TMenu {
        self.top
    }

    pub closed spec fn spec_items(&self) -> Seq<TMenu> {
        self.items@
    }

    /// A builder with no menu and no item.
    pub fn new() -> (r: BulkMenuBuilder)
        ensures
            r.spec_top() == TMenu::NoMenu,
            r.spec_items().len() == 0,
    {
        BulkMenuBuilder { top: TMenu::NoMenu, items: Vec::new() }
    }

    /// Sets the menu that holds the items.
    pub fn add_menu(self, menu: TMenu) -> (r: BulkMenuBuilder)
        ensures
            r.spec_top() == menu,
            r.spec_items() == self.spec_items(),
    {
        BulkMenuBuilder { top: menu, items: self.items }
    }

    /// Adds an item after those already added.
    pub fn add_submenu_item(self, menu: TMenu) -> (r: BulkMenuBuilder)
        ensures
            r.spec_top() == self.spec_top(),
            r.spec_items() == self.spec_items().push(menu),
    {
        let mut items = self.items;
        items.push(menu);
        BulkMenuBuilder { top: self.top, items }
    }

    /// The menu that holds the items.
    pub fn top(&self) -> (r: &TMenu)
        ensures
            *r == self.spec_top(),
    {
        &self.top
    }

    /// The items, in the order they were added.
    pub fn items(&self) -> (r: &Vec<TMenu>)
        ensures
            r@ == self.spec_items(),
    {
        &self.items
    }
}

/// The text with every `&` removed.
pub open spec fn without_ampersands(s: Seq<char>) -> Seq<char>
    decreases s.len(),
{
    if s.len() == 0 {
        s
    } else if s.last() == '&' {
        without_ampersands(s.drop_last())
    } else {
        without_ampersands(s.drop_last()).push(s.last())
    }
}

/// The lowercase form of a text, as `str::to_lowercase` gives it.
pub uninterp spec fn lower_of(s: Seq<char>) -> Seq<char>;

/// Relies on `str::to_lowercase`: the result depends on the characters alone.
#[verifier::external_body]
fn lowercase(s: &str) -> (r: String)
    ensures
        r@ == lower_of(s@),
{
    s.to_lowercase()
}

/// Removes the accelerator marks (`&`) of a menu label.
pub fn strip_accelerators(s: &str) -> (r: String)
    ensures
        r@ == without_ampersands(s@),
{
    let cs = crate::field::chars_of(s);
    let mut out = String::new();
    let mut i: usize = 0;
    while i < cs.len()
        invariant
            i <= cs.len(),
            cs@ == s@,
            out@ == without_ampersands(cs@.subrange(0, i as int)),
        decreases cs.len() - i,
    {
        assert(cs@.subrange(0, i + 1).drop_last() =~= cs@.subrange(0, i as int));
        if cs[i] != '&' {
            crate::field::push_char(&mut out, cs[i]);
        }
        i = i + 1;
    }
    assert(cs@.subrange(0, cs.len() as int) =~= cs@);
    out
}

/// Converts a menu label with an accelerator key into its lowercase key
/// without the accelerator mark: `"&Open File"` becomes `"open file"`.
pub fn menu_resource_to_lc(name: &str) -> (r: String)
    ensures
        r@ == without_ampersands(lower_of(name@)),
{
    let lower = lowercase(name);
    strip_accelerators(lower.as_str())
}

} // verus!
