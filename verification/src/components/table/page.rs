use crate::appframework::HandleEventResult;
use crate::components::table::filter::{Filter, FilterItems};
use crate::components::table::sort::{ItemOrder, SortItems};
use crate::components::text_input::TextInput;
use crate::event_ext::{Event, Key};
use vstd::prelude::*;

verus! {

/// What a table page asks of the application.
#[derive(Clone, Copy, Debug, PartialEq, Eq, Structural)]
pub enum TableRequest {
    /// Leave the page for the one before it.
    GoBack,
}

/// All row numbers below `n`, in order.
pub open spec fn all_rows(n: nat) -> Seq<usize> {
    Seq::new(n, |i: int| i as usize)
}

/// The numbers of the first `n` rows that pass the filter `search`, in order.
pub open spec fn matching_rows<T, F: FilterItems<T> + ?Sized>(
    items: Seq<T>,
    search: Seq<char>,
    n: nat,
) -> Seq<usize>
    decreases n,
{
    if n == 0 {
        Seq::empty()
    } else {
        let before = matching_rows::<T, F>(items, search, (n - 1) as nat);
        if F::passes(&items[n - 1], search) {
            before.push((n - 1) as usize)
        } else {
            before
        }
    }
}

/// The selection after the next row was asked for: the first row where none
/// was selected, else the row below. The page corrects a row beyond the
/// last when it is drawn.
pub open spec fn next_row(selected: Option<usize>) -> Option<usize> {
    match selected {
        None => Some(0usize),
        Some(i) => Some(if i < usize::MAX { (i + 1) as usize } else { i }),
    }
}

/// The selection after the previous row was asked for: the row above, the
/// first row staying; where none was selected, the last row, told as the
/// largest number and corrected when the page is drawn.
pub open spec fn previous_row(selected: Option<usize>) -> Option<usize> {
    match selected {
        None => Some(usize::MAX),
        Some(i) => Some(if i > 0 { (i - 1) as usize } else { 0usize }),
    }
}

/// The row selected after paging down: a page below the first row shown, but
/// not beyond the last row.
pub open spec fn page_down_row(offset: usize, page_size: usize, rows: nat) -> usize {
    let target = if offset + page_size <= usize::MAX {
        (offset + page_size) as usize
    } else {
        usize::MAX
    };
    let last = if rows > 0 { (rows - 1) as usize } else { 0usize };
    if target <= last {
        target
    } else {
        last
    }
}

/// The first row shown after paging down: the selected row, but not so far
/// down that less than a page would be shown.
pub open spec fn page_down_offset(offset: usize, page_size: usize, rows: nat) -> usize {
    let selected = page_down_row(offset, page_size, rows);
    let limit = if rows >= page_size { (rows - page_size) as usize } else { 0usize };
    if selected <= limit {
        selected
    } else {
        limit
    }
}

/// The row selected, and shown first, after paging up: a page above the first
/// row shown, but not above the first row.
pub open spec fn page_up_row(offset: usize, page_size: usize) -> usize {
    if offset >= page_size {
        (offset - page_size) as usize
    } else {
        0usize
    }
}

/// The selected row of a table, told as a number.
pub trait TableStateExt {
    /// The selected row, or the first row where none is selected.
    spec fn coerced(&self) -> usize;

    fn selected_coerced(&self) -> (row: usize)
        ensures
            row == self.coerced(),
    ;
}

/// A page that shows rows in a table: the rows in their order, which of them
/// pass the filter, and which one is selected.
pub struct TablePage<T> {
    title: String,
    items: Vec<T>,
    visible_items: Vec<usize>,
    selected: Option<usize>,
    offset: usize,
    filter: Filter,
    page_size: usize,
    loading: bool,
}

impl<T> TablePage<T> {
    pub closed spec fn title(&self) -> Seq<char> {
        self.title@
    }

    /// All rows, in the order of the table.
    pub closed spec fn items(&self) -> Seq<T> {
        self.items@
    }

    /// The numbers of the rows shown, counted in `items()`.
    pub closed spec fn visible(&self) -> Seq<usize> {
        self.visible_items@
    }

    /// The selected row, counted in `visible()`.
    pub closed spec fn selected(&self) -> Option<usize> {
        self.selected
    }

    /// The first row shown, counted in `visible()`.
    pub closed spec fn offset(&self) -> usize {
        self.offset
    }

    /// The text that rows are filtered by, if any.
    pub closed spec fn filter_text(&self) -> Option<Seq<char>> {
        self.filter.text()
    }

    /// Whether the user is typing the filter.
    pub closed spec fn typing(&self) -> bool {
        self.filter is Input
    }

    /// What a key press makes of the filter being typed and its cursor.
    pub closed spec fn typed_after(&self, event: Event) -> (Seq<char>, nat) {
        match self.filter {
            Filter::Input(input) => input.after_event(event),
            _ => (Seq::empty(), 0nat),
        }
    }

    /// Whether the rows are still being fetched.
    pub closed spec fn is_loading(&self) -> bool {
        self.loading
    }

    /// How many rows fit on the screen.
    pub closed spec fn page_size(&self) -> usize {
        self.page_size
    }

    /// Every shown row is a row of the table.
    pub closed spec fn wf(&self) -> bool {
        forall|k: int|
            0 <= k < self.visible_items@.len() ==> (#[trigger] self.visible_items@[k])
                < self.items@.len()
    }

    /// The item in the selected row, if a shown row is selected.
    pub open spec fn selected_row(&self) -> Option<T> {
        match self.selected() {
            Some(i) => if i < self.visible().len() {
                Some(self.items()[self.visible()[i as int] as int])
            } else {
                None
            },
            None => None,
        }
    }

    /// The selection that falls on the first shown row, or on none where no
    /// row is shown.
    pub open spec fn first_or_none(visible: Seq<usize>) -> Option<usize> {
        if visible.len() == 0 {
            None
        } else {
            Some(0usize)
        }
    }

    /// Everything but the selection and the first row shown is as before.
    pub open spec fn same_rows(&self, before: &Self) -> bool {
        &&& self.title() == before.title()
        &&& self.items() == before.items()
        &&& self.visible() == before.visible()
        &&& self.filter_text() == before.filter_text()
        &&& self.typing() == before.typing()
        &&& self.page_size() == before.page_size()
        &&& self.is_loading() == before.is_loading()
    }

    /// Nothing is as it was not.
    pub open spec fn unchanged(&self, before: &Self) -> bool {
        &&& self.same_rows(before)
        &&& self.selected() == before.selected()
        &&& self.offset() == before.offset()
    }

    fn all_visible(n: usize) -> (rows: Vec<usize>)
        ensures
            rows@ == all_rows(n as nat),
    {
        let mut rows: Vec<usize> = Vec::new();
        let mut i: usize = 0;
        while i < n
            invariant
                i <= n,
                rows@ == all_rows(i as nat),
            decreases n - i,
        {
            rows.push(i);
            assert(rows@ =~= all_rows((i + 1) as nat));
            i += 1;
        }
        rows
    }

    fn select(&mut self, index: Option<usize>)
        ensures
            final(self).same_rows(old(self)),
            final(self).selected() == index,
            final(self).offset() == if index is None {
                0usize
            } else {
                old(self).offset()
            },
            old(self).wf() ==> final(self).wf(),
    {
        self.selected = index;
        if index.is_none() {
            self.offset = 0;
        }
    }

    fn select_first_or_none(&mut self)
        ensures
            final(self).same_rows(old(self)),
            final(self).selected() == Self::first_or_none(old(self).visible()),
            final(self).offset() == if old(self).visible().len() == 0 {
                0usize
            } else {
                old(self).offset()
            },
            old(self).wf() ==> final(self).wf(),
    {
        let index = if self.visible_items.len() == 0 {
            None
        } else {
            Some(0)
        };
        self.select(index);
    }

    /// The title shown above the table.
    pub fn title_text(&self) -> (title: &str)
        ensures
            title@ == self.title(),
    {
        self.title.as_str()
    }

    /// All rows of the table.
    pub fn all_items(&self) -> (items: &Vec<T>)
        ensures
            items@ == self.items(),
    {
        &self.items
    }

    /// The numbers of the rows shown.
    pub fn visible_rows(&self) -> (rows: &Vec<usize>)
        ensures
            rows@ == self.visible(),
    {
        &self.visible_items
    }

    /// The selected row and the first row shown.
    pub fn selection(&self) -> (r: (Option<usize>, usize))
        ensures
            r == (self.selected(), self.offset()),
    {
        (self.selected, self.offset)
    }

    /// The filter.
    pub fn filter(&self) -> (f: &Filter)
        ensures
            f.text() == self.filter_text(),
            (*f is Input) == self.typing(),
    {
        &self.filter
    }

    /// Whether the rows are still being fetched.
    pub fn loading(&self) -> (b: bool)
        ensures
            b == self.is_loading(),
    {
        self.loading
    }

    /// Everything but whether the table is loading is as before.
    pub open spec fn same_but_loading(&self, before: &Self) -> bool {
        &&& self.title() == before.title()
        &&& self.items() == before.items()
        &&& self.visible() == before.visible()
        &&& self.filter_text() == before.filter_text()
        &&& self.typing() == before.typing()
        &&& self.page_size() == before.page_size()
        &&& self.selected() == before.selected()
        &&& self.offset() == before.offset()
    }

    /// Notes whether the rows are still being fetched.
    pub fn set_loading(&mut self, loading: bool)
        ensures
            final(self).same_but_loading(old(self)),
            final(self).is_loading() == loading,
            old(self).wf() ==> final(self).wf(),
    {
        self.loading = loading;
    }

    /// Takes over the selection as the screen corrected it when it drew the
    /// table.
    pub fn set_selection(&mut self, selected: Option<usize>, offset: usize)
        ensures
            final(self).same_rows(old(self)),
            final(self).selected() == selected,
            final(self).offset() == offset,
            old(self).wf() ==> final(self).wf(),
    {
        self.selected = selected;
        self.offset = offset;
    }

    /// Takes note of the height of the table on the screen: three lines go to
    /// the frame and the header, the rest are rows.
    pub fn set_table_height(&mut self, height: u16)
        ensures
            final(self).title() == old(self).title(),
            final(self).items() == old(self).items(),
            final(self).visible() == old(self).visible(),
            final(self).filter_text() == old(self).filter_text(),
            final(self).typing() == old(self).typing(),
            final(self).is_loading() == old(self).is_loading(),
            final(self).selected() == old(self).selected(),
            final(self).offset() == old(self).offset(),
            final(self).page_size() == if height >= 3 {
                (height - 3) as usize
            } else {
                0usize
            },
            old(self).wf() ==> final(self).wf(),
    {
        self.page_size = if height >= 3 {
            (height - 3) as usize
        } else {
            0
        };
    }

    /// The item in the selected row.
    pub fn selected_item(&self) -> (item: Option<&T>)
        requires
            self.wf(),
        ensures
            match item {
                Some(found) => self.selected_row() == Some(*found),
                None => self.selected_row() is None,
            },
    {
        match self.selected {
            Some(i) => {
                if i < self.visible_items.len() {
                    Some(&self.items[self.visible_items[i]])
                } else {
                    None
                }
            },
            None => None,
        }
    }

    /// Shows every row again and selects the first.
    pub fn reset_filter(&mut self)
        requires
            old(self).wf(),
        ensures
            final(self).wf(),
            final(self).title() == old(self).title(),
            final(self).items() == old(self).items(),
            final(self).page_size() == old(self).page_size(),
            final(self).is_loading() == old(self).is_loading(),
            final(self).filter_text() is None,
            !final(self).typing(),
            final(self).visible() == all_rows(old(self).items().len()),
            final(self).selected() == Self::first_or_none(final(self).visible()),
            final(self).offset() == if old(self).items().len() == 0 {
                0usize
            } else {
                old(self).offset()
            },
    {
        self.filter = Filter::Disabled;
        self.visible_items = Self::all_visible(self.items.len());
        self.select_first_or_none();
    }

    /// Lets the user type the filter, starting from the filter that is set.
    pub fn show_filter(&mut self)
        ensures
            final(self).title() == old(self).title(),
            final(self).items() == old(self).items(),
            final(self).visible() == old(self).visible(),
            final(self).page_size() == old(self).page_size(),
            final(self).is_loading() == old(self).is_loading(),
            final(self).selected() == old(self).selected(),
            final(self).offset() == old(self).offset(),
            final(self).typing(),
            final(self).filter_text() == match old(self).filter_text() {
                Some(text) => if old(self).typing() {
                    Some(Seq::<char>::empty())
                } else {
                    Some(text)
                },
                None => Some(Seq::<char>::empty()),
            },
            old(self).wf() ==> final(self).wf(),
    {
        let next = match &self.filter {
            Filter::Value(value) => Filter::Input(TextInput::new(value.clone())),
            _ => Filter::Input(TextInput::empty()),
        };
        self.filter = next;
    }

    /// Ends the typing and keeps what was typed as the filter.
    pub fn hide_filter(&mut self)
        ensures
            final(self).title() == old(self).title(),
            final(self).items() == old(self).items(),
            final(self).visible() == old(self).visible(),
            final(self).page_size() == old(self).page_size(),
            final(self).is_loading() == old(self).is_loading(),
            final(self).selected() == old(self).selected(),
            final(self).offset() == old(self).offset(),
            final(self).filter_text() == old(self).filter_text(),
            final(self).typing() == false,
            old(self).wf() ==> final(self).wf(),
    {
        let next = match &self.filter {
            Filter::Input(input) => Some(Filter::Value(input.value().to_owned())),
            _ => None,
        };
        match next {
            Some(filter) => {
                self.filter = filter;
            },
            None => {},
        }
    }

    /// Selects the row below.
    pub fn select_next(&mut self)
        ensures
            final(self).same_rows(old(self)),
            final(self).selected() == next_row(old(self).selected()),
            final(self).offset() == old(self).offset(),
            old(self).wf() ==> final(self).wf(),
    {
        let next = match self.selected {
            None => 0,
            Some(i) => if i < usize::MAX {
                i + 1
            } else {
                i
            },
        };
        self.select(Some(next));
    }

    /// Selects the row above.
    pub fn select_previous(&mut self)
        ensures
            final(self).same_rows(old(self)),
            final(self).selected() == previous_row(old(self).selected()),
            final(self).offset() == old(self).offset(),
            old(self).wf() ==> final(self).wf(),
    {
        let previous = match self.selected {
            None => usize::MAX,
            Some(i) => if i > 0 {
                i - 1
            } else {
                0
            },
        };
        self.select(Some(previous));
    }

    /// Moves a page down.
    pub fn next_page(&mut self)
        ensures
            final(self).same_rows(old(self)),
            final(self).selected() == Some(
                page_down_row(old(self).offset(), old(self).page_size(), old(self).visible().len()),
            ),
            final(self).offset() == page_down_offset(
                old(self).offset(),
                old(self).page_size(),
                old(self).visible().len(),
            ),
            old(self).wf() ==> final(self).wf(),
    {
        let rows = self.visible_items.len();
        let target = if self.offset <= usize::MAX - self.page_size {
            self.offset + self.page_size
        } else {
            usize::MAX
        };
        let last = if rows > 0 {
            rows - 1
        } else {
            0
        };
        let new_selected = if target <= last {
            target
        } else {
            last
        };
        let limit = if rows >= self.page_size {
            rows - self.page_size
        } else {
            0
        };
        self.offset = if new_selected <= limit {
            new_selected
        } else {
            limit
        };
        self.selected = Some(new_selected);
    }

    /// Moves a page up.
    pub fn previous_page(&mut self)
        ensures
            final(self).same_rows(old(self)),
            final(self).selected() == Some(page_up_row(old(self).offset(), old(self).page_size())),
            final(self).offset() == page_up_row(old(self).offset(), old(self).page_size()),
            old(self).wf() ==> final(self).wf(),
    {
        let new_selected = if self.offset >= self.page_size {
            self.offset - self.page_size
        } else {
            0
        };
        self.offset = new_selected;
        self.selected = Some(new_selected);
    }
}

impl<T> TableStateExt for TablePage<T> {
    open spec fn coerced(&self) -> usize {
        match self.selected() {
            Some(row) => row,
            None => 0usize,
        }
    }

    fn selected_coerced(&self) -> (row: usize) {
        match self.selected {
            Some(row) => row,
            None => 0,
        }
    }
}

impl<T> TablePage<T> where Self: SortItems<T> {
    /// A page titled `title` that shows `items`, put in order, the first of
    /// them selected.
    pub fn new(title: String, items: Vec<T>, loading: bool) -> (page: Self)
        ensures
            page.wf(),
            page.title() == title@,
            page.is_loading() == loading,
            page.items().to_multiset() == items@.to_multiset(),
            forall|i: int, j: int|
                0 <= i < j < page.items().len() ==> Self::in_order(
                    &page.items()[i],
                    &page.items()[j],
                ),
            page.visible() == all_rows(page.items().len()),
            page.selected() == Self::first_or_none(page.visible()),
            page.offset() == 0,
            page.filter_text() is None,
            !page.typing(),
            page.page_size() == 0,
    {
        let mut items = items;
        Self::sort(&mut items);
        let visible_items = Self::all_visible(items.len());
        let mut page = TablePage {
            title,
            items,
            visible_items,
            selected: None,
            offset: 0,
            filter: Filter::Disabled,
            page_size: 0,
            loading,
        };
        page.select_first_or_none();
        page
    }

    /// What replacing the rows by `items` makes of the table: the new rows are
    /// `items` put in order, all of them are shown, and a selection beyond
    /// the last row falls back to the first row. Title, filter, page size
    /// and whether the table is loading stay.
    pub open spec fn rows_replaced(before: &Self, items: Seq<T>, after: &Self) -> bool {
        &&& after.title() == before.title()
        &&& after.filter_text() == before.filter_text()
        &&& after.typing() == before.typing()
        &&& after.page_size() == before.page_size()
        &&& after.is_loading() == before.is_loading()
        &&& after.items().to_multiset() == items.to_multiset()
        &&& forall|i: int, j: int|
            0 <= i < j < after.items().len() ==> Self::in_order(&after.items()[i], &after.items()[j])
        &&& after.visible() == all_rows(after.items().len())
        &&& after.selected() == match before.selected() {
            Some(s) => if s >= after.items().len() {
                Self::first_or_none(after.visible())
            } else {
                Some(s)
            },
            None => None,
        }
        &&& after.offset() == if before.selected() is Some && after.items().len() == 0 {
            0usize
        } else {
            before.offset()
        }
    }

    /// Replaces the rows by `items`.
    pub fn set_items(&mut self, items: Vec<T>)
        ensures
            final(self).wf(),
            Self::rows_replaced(old(self), items@, final(self)),
    {
        let mut items = items;
        Self::sort(&mut items);
        self.items = items;
        self.visible_items = Self::all_visible(self.items.len());
        match self.selected {
            Some(selected) => {
                if selected >= self.items.len() {
                    self.select_first_or_none();
                }
            },
            None => {},
        }
    }
}

impl<T> TablePage<T> where Self: FilterItems<T> {
    /// Lets the filter being typed handle an event, then shows the rows that
    /// pass what is typed now and selects the first of them. Where no filter
    /// is being typed nothing changes.
    pub fn update_filter(&mut self, event: &Event)
        requires
            old(self).wf(),
        ensures
            final(self).wf(),
            final(self).title() == old(self).title(),
            final(self).items() == old(self).items(),
            final(self).page_size() == old(self).page_size(),
            final(self).is_loading() == old(self).is_loading(),
            final(self).typing() == old(self).typing(),
            !old(self).typing() ==> final(self).unchanged(old(self)),
            old(self).typing() ==> {
                &&& final(self).filter_text() == Some(old(self).typed_after(*event).0)
                &&& final(self).visible() == matching_rows::<T, Self>(
                    old(self).items(),
                    old(self).typed_after(*event).0,
                    old(self).items().len(),
                )
                &&& final(self).selected() == Self::first_or_none(final(self).visible())
                &&& final(self).offset() == if final(self).visible().len() == 0 {
                    0usize
                } else {
                    old(self).offset()
                }
            },
    {
        let typed = match &mut self.filter {
            Filter::Input(input) => {
                input.handle_event(event);
                Some(input.value().to_owned())
            },
            _ => None,
        };
        match typed {
            Some(search) => {
                let mut rows: Vec<usize> = Vec::new();
                let mut i: usize = 0;
                while i < self.items.len()
                    invariant
                        i <= self.items@.len(),
                        rows@ == matching_rows::<T, Self>(self.items@, search@, i as nat),
                        forall|k: int| 0 <= k < rows@.len() ==> (#[trigger] rows@[k]) < i,
                    decreases self.items@.len() - i,
                {
                    if Self::matches(&self.items[i], search.as_str()) {
                        rows.push(i);
                    }
                    i += 1;
                }
                self.visible_items = rows;
                self.select_first_or_none();
            },
            None => {},
        }
    }

    /// Whether the table consumes the event: every event while the filter is
    /// typed, else the keys that the table knows.
    pub open spec fn consumes(&self, event: Event) -> bool {
        self.typing() || Self::is_table_key(event.key_code())
    }

    /// Whether the table answers the event by asking to go back: on escape,
    /// when no filter is set.
    pub open spec fn asks_back(&self, event: Event) -> bool {
        !self.typing() && event.key_code() == Some(Key::Esc) && self.filter_text() is None
    }

    /// What handling an event makes of the table, whatever it answers.
    pub open spec fn event_applied(before: &Self, event: Event, after: &Self) -> bool {
        Self::event_handled(
            before,
            event,
            after,
            HandleEventResult {
                processed: before.consumes(event),
                message: if before.asks_back(event) {
                    Some(TableRequest::GoBack)
                } else {
                    None
                },
            },
        )
    }

    /// What handling an event makes of the table and what it answers. While
    /// the filter is typed, enter ends the typing and everything else goes
    /// to the filter. Otherwise the table knows the keys that move the
    /// selection, `/` for the filter and escape, which drops the filter or,
    /// without one, asks to go back. Any other event is not consumed.
    pub open spec fn event_handled(
        before: &Self,
        event: Event,
        after: &Self,
        r: HandleEventResult<TableRequest>,
    ) -> bool {
        &&& after.title() == before.title()
        &&& after.items() == before.items()
        &&& after.page_size() == before.page_size()
        &&& after.is_loading() == before.is_loading()
        &&& r.processed == before.consumes(event)
        &&& r.message == if before.asks_back(event) {
            Some(TableRequest::GoBack)
        } else {
            None
        }
        &&& before.typing() && event.key_code() == Some(Key::Enter) ==> {
            &&& after.visible() == before.visible()
            &&& after.selected() == before.selected()
            &&& after.offset() == before.offset()
            &&& after.filter_text() == before.filter_text()
            &&& !after.typing()
        }
        &&& before.typing() && event.key_code() != Some(Key::Enter) ==> {
            &&& after.typing()
            &&& after.filter_text() == Some(before.typed_after(event).0)
            &&& after.visible() == matching_rows::<T, Self>(
                before.items(),
                before.typed_after(event).0,
                before.items().len(),
            )
            &&& after.selected() == Self::first_or_none(after.visible())
            &&& after.offset() == if after.visible().len() == 0 {
                0usize
            } else {
                before.offset()
            }
        }
        &&& !before.typing() ==> match event.key_code() {
            Some(Key::Esc) => if before.filter_text() is Some {
                &&& after.filter_text() is None
                &&& !after.typing()
                &&& after.visible() == all_rows(before.items().len())
                &&& after.selected() == Self::first_or_none(after.visible())
                &&& after.offset() == if before.items().len() == 0 {
                    0usize
                } else {
                    before.offset()
                }
            } else {
                after.unchanged(before)
            },
            Some(Key::Up) => after.same_rows(before) && after.selected()
                == previous_row(before.selected()) && after.offset() == before.offset(),
            Some(Key::Down) => after.same_rows(before) && after.selected()
                == next_row(before.selected()) && after.offset() == before.offset(),
            Some(Key::PageDown) => after.same_rows(before) && after.selected()
                == Some(
                page_down_row(
                    before.offset(),
                    before.page_size(),
                    before.visible().len(),
                ),
            ) && after.offset() == page_down_offset(
                before.offset(),
                before.page_size(),
                before.visible().len(),
            ),
            Some(Key::PageUp) => after.same_rows(before) && after.selected()
                == Some(page_up_row(before.offset(), before.page_size())) && after.offset() == page_up_row(before.offset(), before.page_size()),
            Some(Key::Char('/')) => {
                &&& after.visible() == before.visible()
                &&& after.selected() == before.selected()
                &&& after.offset() == before.offset()
                &&& after.typing()
                &&& after.filter_text() == match before.filter_text() {
                    Some(text) => Some(text),
                    None => Some(Seq::<char>::empty()),
                }
            },
            _ => after.unchanged(before),
        }
    }

    /// Lets the table handle an event.
    pub fn handle_event(&mut self, event: &Event) -> (r: HandleEventResult<TableRequest>)
        requires
            old(self).wf(),
        ensures
            final(self).wf(),
            Self::event_handled(old(self), *event, final(self), r),
    {
        if self.filter.is_input() {
            match event {
                Event::Key(key_event) if key_event.code == Key::Enter => {
                    self.hide_filter();
                },
                _ => {
                    self.update_filter(event);
                },
            }
            return HandleEventResult::consumed();
        }
        match event {
            Event::Key(key_event) => {
                match key_event.code {
                    Key::Esc => {
                        if self.filter.is_active() {
                            self.reset_filter();
                            HandleEventResult::consumed()
                        } else {
                            HandleEventResult::consumed_with(TableRequest::GoBack)
                        }
                    },
                    Key::Up => {
                        self.select_previous();
                        HandleEventResult::consumed()
                    },
                    Key::Down => {
                        self.select_next();
                        HandleEventResult::consumed()
                    },
                    Key::PageDown => {
                        self.next_page();
                        HandleEventResult::consumed()
                    },
                    Key::PageUp => {
                        self.previous_page();
                        HandleEventResult::consumed()
                    },
                    Key::Char('/') => {
                        self.show_filter();
                        HandleEventResult::consumed()
                    },
                    _ => HandleEventResult::ignored(),
                }
            },
            Event::Other => HandleEventResult::ignored(),
        }
    }

    /// The keys that a table consumes while no filter is typed.
    pub open spec fn is_table_key(key: Option<Key>) -> bool {
        match key {
            Some(Key::Esc) => true,
            Some(Key::Up) => true,
            Some(Key::Down) => true,
            Some(Key::PageDown) => true,
            Some(Key::PageUp) => true,
            Some(Key::Char('/')) => true,
            _ => false,
        }
    }
}

} // verus!
