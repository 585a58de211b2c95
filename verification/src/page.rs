//! The state of the extensions page and the transitions the GUI drives.
//!
//! The host application owns the widgets, the async executor and the
//! extension store; it feeds edits, clicks and fetch results into the page
//! and reads back what each row of the list must show.

use vstd::prelude::*;

use crate::entries::DevExtension;
use crate::entries::RemoteExtension;
use crate::filter::ExtensionFilter;
use crate::filter::compute_filtered_indices;
use crate::filter::filtered_indices;
use crate::filter::lemma_filtered_indices_correct;
use crate::query::is_blank;
use crate::query::text_is_blank;
use crate::status::ExtensionStatus;

verus! {

/// How long a fetch triggered by typing waits for further keystrokes.
pub const SEARCH_DEBOUNCE_MS: u64 = 250;

/// What one row of the list shows: a dev extension or a remote one, by its
/// index into the page's respective entry list.
#[derive(Debug, PartialEq, Eq, Clone, Copy, Structural)]
pub enum ListEntry {
    Dev { index: usize },
    Remote { index: usize },
}

/// Why the store could not deliver the remote entries.
#[derive(Debug, PartialEq, Eq)]
pub struct FetchError {
    pub message: String,
}

/// A fetch the page asks the host to run: the search to pass to the store,
/// and how long to wait before starting.
#[derive(Debug, PartialEq, Eq)]
pub struct FetchIntent {
    pub search: Option<String>,
    pub delay_ms: u64,
}

/// The page's state. The host renders from it and never mutates it except
/// through the methods below.
#[derive(Debug)]
pub struct ExtensionsPage {
    pub is_fetching_extensions: bool,
    pub filter: ExtensionFilter,
    pub remote_extension_entries: Vec<RemoteExtension>,
    pub dev_extension_entries: Vec<DevExtension>,
    pub filtered_remote_extension_indices: Vec<usize>,
    pub query: String,
    pub query_contains_error: bool,
}

impl ExtensionsPage {
    /// Every filtered index points into the remote entry list.
    pub open spec fn well_formed(self) -> bool {
        forall|j: int|
            0 <= j < self.filtered_remote_extension_indices@.len()
                ==> (#[trigger] self.filtered_remote_extension_indices@[j])
                < self.remote_extension_entries@.len()
    }

    /// How many rows at the top of the list show dev extensions.
    pub open spec fn dev_rows(self) -> int {
        if self.filter is NotInstalled {
            0
        } else {
            self.dev_extension_entries@.len() as int
        }
    }

    /// How many rows the list has.
    pub open spec fn spec_entry_count(self) -> int {
        self.dev_rows() + self.filtered_remote_extension_indices@.len()
    }

    /// What row `ix` shows: dev extensions first, then the remote entries
    /// the filter admits, in order.
    pub open spec fn spec_row(self, ix: int) -> ListEntry {
        if ix < self.dev_rows() {
            ListEntry::Dev { index: ix as usize }
        } else {
            ListEntry::Remote {
                index: self.filtered_remote_extension_indices@[ix - self.dev_rows()],
            }
        }
    }

    /// The search to hand the store: the query text, unless it trims to
    /// nothing.
    pub open spec fn spec_search_query(self) -> Option<String> {
        if is_blank(self.query@) {
            None
        } else {
            Some(self.query)
        }
    }

    /// A fresh page: showing every extension, nothing loaded yet, an empty
    /// query.
    pub fn new() -> (page: Self)
        ensures
            !page.is_fetching_extensions,
            page.filter == ExtensionFilter::All,
            page.remote_extension_entries@ == Seq::<RemoteExtension>::empty(),
            page.dev_extension_entries@ == Seq::<DevExtension>::empty(),
            page.filtered_remote_extension_indices@ == Seq::<usize>::empty(),
            page.query@ == Seq::<char>::empty(),
            !page.query_contains_error,
            page.well_formed(),
    {
        ExtensionsPage {
            is_fetching_extensions: false,
            filter: ExtensionFilter::All,
            remote_extension_entries: Vec::new(),
            dev_extension_entries: Vec::new(),
            filtered_remote_extension_indices: Vec::new(),
            query: String::new(),
            query_contains_error: false,
        }
    }

    /// Rebuilds the filtered index from the current filter and the status
    /// the store reports for each remote entry.
    pub fn filter_extension_entries(&mut self, statuses: &Vec<ExtensionStatus>)
        requires
            statuses@.len() == old(self).remote_extension_entries@.len(),
        ensures
            final(self).filtered_remote_extension_indices@.map_values(|x: usize| x as int)
                == filtered_indices(old(self).filter, statuses@),
            *final(self) == (ExtensionsPage {
                filtered_remote_extension_indices: final(self).filtered_remote_extension_indices,
                ..*old(self)
            }),
            final(self).well_formed(),
    {
        let r = compute_filtered_indices(self.filter, statuses);
        self.filtered_remote_extension_indices = r;
        proof {
            lemma_filtered_indices_correct(self.filter, statuses@);
            let mapped = self.filtered_remote_extension_indices@.map_values(|x: usize| x as int);
            assert forall|j: int|
                0 <= j < self.filtered_remote_extension_indices@.len() implies (
            #[trigger] self.filtered_remote_extension_indices@[j])
                < self.remote_extension_entries@.len() by {
                assert(mapped[j] == self.filtered_remote_extension_indices@[j] as int);
            }
        }
    }

    /// Switches the filter and rebuilds the filtered index.
    pub fn set_filter(&mut self, filter: ExtensionFilter, statuses: &Vec<ExtensionStatus>)
        requires
            statuses@.len() == old(self).remote_extension_entries@.len(),
        ensures
            final(self).filtered_remote_extension_indices@.map_values(|x: usize| x as int)
                == filtered_indices(filter, statuses@),
            *final(self) == (ExtensionsPage {
                filter,
                filtered_remote_extension_indices: final(self).filtered_remote_extension_indices,
                ..*old(self)
            }),
            final(self).well_formed(),
    {
        self.filter = filter;
        self.filter_extension_entries(statuses);
    }

    /// The search to hand the store, if the query trims to anything.
    pub fn search_query(&self) -> (r: Option<String>)
        ensures
            r == self.spec_search_query(),
    {
        if text_is_blank(&self.query) {
            None
        } else {
            Some(self.query.clone())
        }
    }

    /// Plans the fetch that a change should trigger. A fetch with a search
    /// waits out the debounce interval; clearing the search reloads at
    /// once, so the list never flashes an empty state between keystrokes.
    pub fn fetch_extensions_debounced(&self) -> (intent: FetchIntent)
        ensures
            intent.search == self.spec_search_query(),
            intent.delay_ms == if self.spec_search_query() is Some {
                SEARCH_DEBOUNCE_MS as int
            } else {
                0
            },
    {
        let search = self.search_query();
        let delay_ms: u64 = if search.is_some() {
            SEARCH_DEBOUNCE_MS
        } else {
            0
        };
        FetchIntent { search, delay_ms }
    }

    /// Takes the edited query text, clears the query error, and plans the
    /// fetch the edit should trigger.
    pub fn on_query_change(&mut self, new_text: String) -> (intent: FetchIntent)
        ensures
            *final(self) == (ExtensionsPage {
                query: new_text,
                query_contains_error: false,
                ..*old(self)
            }),
            intent.search == final(self).spec_search_query(),
            intent.delay_ms == if final(self).spec_search_query() is Some {
                SEARCH_DEBOUNCE_MS as int
            } else {
                0
            },
    {
        self.query = new_text;
        self.query_contains_error = false;
        self.fetch_extensions_debounced()
    }

    /// Marks the page as loading while a fetch runs.
    pub fn begin_fetch(&mut self)
        ensures
            *final(self) == (ExtensionsPage { is_fetching_extensions: true, ..*old(self) }),
    {
        self.is_fetching_extensions = true;
    }

    /// Takes what a fetch produced. The dev entries always arrive; the
    /// remote entries replace the old ones and are refiltered only when the
    /// fetch succeeded, else the page keeps what it was showing. Either
    /// way the page stops loading.
    pub fn complete_fetch(
        &mut self,
        dev_extensions: Vec<DevExtension>,
        fetch_result: Result<Vec<RemoteExtension>, FetchError>,
        statuses: &Vec<ExtensionStatus>,
    ) -> (r: Result<(), FetchError>)
        requires
            old(self).well_formed(),
            fetch_result matches Ok(entries) ==> statuses@.len() == entries@.len(),
        ensures
            final(self).dev_extension_entries == dev_extensions,
            !final(self).is_fetching_extensions,
            final(self).filter == old(self).filter,
            final(self).query == old(self).query,
            final(self).query_contains_error == old(self).query_contains_error,
            final(self).well_formed(),
            match fetch_result {
                Ok(entries) => {
                    &&& r is Ok
                    &&& final(self).remote_extension_entries == entries
                    &&& final(self).filtered_remote_extension_indices@.map_values(
                        |x: usize| x as int,
                    ) == filtered_indices(old(self).filter, statuses@)
                },
                Err(e) => {
                    &&& r == Err::<(), FetchError>(e)
                    &&& final(self).remote_extension_entries == old(
                        self,
                    ).remote_extension_entries
                    &&& final(self).filtered_remote_extension_indices == old(
                        self,
                    ).filtered_remote_extension_indices
                },
            },
    {
        self.dev_extension_entries = dev_extensions;
        self.is_fetching_extensions = false;
        match fetch_result {
            Ok(entries) => {
                self.remote_extension_entries = entries;
                self.filter_extension_entries(statuses);
                Ok(())
            },
            Err(e) => Err(e),
        }
    }

    /// How many rows the list shows.
    pub fn entry_count(&self) -> (count: usize)
        requires
            self.spec_entry_count() <= usize::MAX,
        ensures
            count == self.spec_entry_count(),
    {
        let mut count = self.filtered_remote_extension_indices.len();
        if self.filter.include_dev_extensions() {
            count = count + self.dev_extension_entries.len();
        }
        count
    }

    /// What each row in `start..end` shows, for the rows the list asks to
    /// draw.
    pub fn rows_for_range(&self, start: usize, end: usize) -> (rows: Vec<ListEntry>)
        requires
            self.well_formed(),
            start <= end,
            end <= self.spec_entry_count(),
        ensures
            rows@.len() == end - start,
            forall|k: int| 0 <= k < rows@.len() ==> rows@[k] == self.spec_row(start + k),
    {
        let dev_len: usize = if self.filter.include_dev_extensions() {
            self.dev_extension_entries.len()
        } else {
            0
        };
        let mut rows: Vec<ListEntry> = Vec::new();
        let mut ix = start;
        while ix < end
            invariant
                start <= ix <= end,
                end <= self.spec_entry_count(),
                self.well_formed(),
                dev_len == self.dev_rows(),
                rows@.len() == ix - start,
                forall|k: int| 0 <= k < rows@.len() ==> rows@[k] == self.spec_row(start + k),
            decreases end - ix,
        {
            if ix < dev_len {
                rows.push(ListEntry::Dev { index: ix });
            } else {
                rows.push(
                    ListEntry::Remote {
                        index: self.filtered_remote_extension_indices[ix - dev_len],
                    },
                );
            }
            ix = ix + 1;
        }
        rows
    }

    /// The message shown instead of an empty list.
    pub fn render_empty_state(&self) -> (message: &'static str)
        ensures
            message@ == empty_state_spec(
                self.is_fetching_extensions,
                self.filter,
                !is_blank(self.query@),
            ),
    {
        let has_search = !text_is_blank(&self.query);
        if self.is_fetching_extensions {
            "Loading extensions..."
        } else {
            match self.filter {
                ExtensionFilter::All => if has_search {
                    "No extensions that match your search."
                } else {
                    "No extensions."
                },
                ExtensionFilter::Installed => if has_search {
                    "No installed extensions that match your search."
                } else {
                    "No installed extensions."
                },
                ExtensionFilter::NotInstalled => if has_search {
                    "No not installed extensions that match your search."
                } else {
                    "No not installed extensions."
                },
            }
        }
    }
}

/// The empty-list message: a loading notice while a fetch runs, else a
/// wording that reflects the active filter and whether a search is on.
pub open spec fn empty_state_spec(
    is_fetching: bool,
    filter: ExtensionFilter,
    has_search: bool,
) -> Seq<char> {
    if is_fetching {
        "Loading extensions..."@
    } else {
        match filter {
            ExtensionFilter::All => if has_search {
                "No extensions that match your search."@
            } else {
                "No extensions."@
            },
            ExtensionFilter::Installed => if has_search {
                "No installed extensions that match your search."@
            } else {
                "No installed extensions."@
            },
            ExtensionFilter::NotInstalled => if has_search {
                "No not installed extensions that match your search."@
            } else {
                "No not installed extensions."@
            },
        }
    }
}

/// Every row the list shows respects the active filter: a remote row's
/// entry is one the filter admits, and dev rows appear only under the
/// filters that include dev extensions.
pub proof fn lemma_rows_respect_filter(
    page: ExtensionsPage,
    statuses: Seq<ExtensionStatus>,
    ix: int,
)
    requires
        page.filtered_remote_extension_indices@.map_values(|x: usize| x as int)
            == filtered_indices(page.filter, statuses),
        statuses.len() == page.remote_extension_entries@.len(),
        0 <= ix < page.spec_entry_count(),
    ensures
        page.spec_row(ix) matches ListEntry::Remote { index } ==> {
            &&& index < page.remote_extension_entries@.len()
            &&& page.filter.admits(statuses[index as int])
        },
        page.spec_row(ix) is Dev ==> !(page.filter is NotInstalled),
{
    lemma_filtered_indices_correct(page.filter, statuses);
    let mapped = page.filtered_remote_extension_indices@.map_values(|x: usize| x as int);
    if ix >= page.dev_rows() {
        let j = ix - page.dev_rows();
        assert(mapped[j] == page.filtered_remote_extension_indices@[j] as int);
    }
}

} // verus!
