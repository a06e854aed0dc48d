//! The application state aggregate: the single object every input event and
//! every completed load is applied to.
use vstd::prelude::*;
use crate::filter::{
    filter_source, json_accepts, json_converts, parse_json, to_filter_document, FilterError,
};
use crate::models::{CollectionInfo, DatabaseInfo, ServerInfo};
use crate::screen::Screen;
use crate::selection::{next_index, prev_index, selected, step_next, step_prev};
use crate::text::{clear_text, pop_text, push_text};
use mongodb::bson::Document;

verus! {

/// An established connection: the address used and what the server said.
#[derive(Debug, Clone)]
pub struct ConnectionState {
    pub uri: String,
    pub server_info: ServerInfo,
}

/// Which text buffer, if any, keystrokes are currently routed to. Being a
/// single value, at most one editing session is active at a time.
#[derive(Debug, Clone, Copy, PartialEq, Eq, Structural)]
pub enum InputMode {
    Normal,
    /// Editing the connection address.
    Connection,
    /// Editing the search text.
    Filter,
    /// Editing a raw JSON query.
    Query,
}

/// The connection address offered before the user types one.
pub open spec fn default_uri() -> Seq<char> {
    "mongodb://localhost:27017"@
}

#[derive(Debug)]
pub struct AppState {
    pub connection: Option<ConnectionState>,
    pub current_database: Option<String>,
    pub current_collection: Option<String>,
    pub databases: Vec<DatabaseInfo>,
    pub collections: Vec<CollectionInfo>,
    pub documents: Vec<Document>,
    pub current_page: usize,
    pub page_size: usize,
    pub filter: Option<Document>,
    pub loading: bool,
    pub error: Option<String>,
    pub should_quit: bool,
    pub selected_db_index: usize,
    pub selected_coll_index: usize,
    pub current_screen: Screen,
    pub selected_doc_index: usize,
    pub doc_scroll_offset: usize,
    pub connection_input: String,
    pub mode: InputMode,
    pub filter_input: String,
    pub query_input: String,
    pub connection_history: Vec<String>,
    pub selected_history_index: usize,
    pub show_history: bool,
}

impl AppState {
    /// The state at start-up: disconnected, on the connection screen, every
    /// list empty with its cursor at the start, no filter, no session, pages
    /// of twenty documents and the default address typed in.
    pub open spec fn is_fresh(&self) -> bool {
        &&& self.connection is None
        &&& self.current_database is None
        &&& self.current_collection is None
        &&& self.databases@.len() == 0
        &&& self.collections@.len() == 0
        &&& self.documents@.len() == 0
        &&& self.current_page == 0
        &&& self.page_size == 20
        &&& self.filter is None
        &&& !self.loading
        &&& self.error is None
        &&& !self.should_quit
        &&& self.selected_db_index == 0
        &&& self.selected_coll_index == 0
        &&& self.current_screen == Screen::Connection
        &&& self.selected_doc_index == 0
        &&& self.doc_scroll_offset == 0
        &&& self.connection_input@ == default_uri()
        &&& self.mode == InputMode::Normal
        &&& self.filter_input@.len() == 0
        &&& self.query_input@.len() == 0
        &&& self.connection_history@.len() == 0
        &&& self.selected_history_index == 0
        &&& !self.show_history
    }

    /// The text that compiling the filter reads in this state.
    pub open spec fn compile_source(&self) -> Seq<char> {
        filter_source(self.query_input@, self.filter_input@)
    }

    /// A state as at start-up.
    pub fn new() -> (r: Self)
        ensures
            r.is_fresh(),
    {
        proof {
            reveal_strlit("mongodb://localhost:27017");
        }
        AppState {
            connection: None,
            current_database: None,
            current_collection: None,
            databases: Vec::new(),
            collections: Vec::new(),
            documents: Vec::new(),
            current_page: 0,
            page_size: 20,
            filter: None,
            loading: false,
            error: None,
            should_quit: false,
            selected_db_index: 0,
            selected_coll_index: 0,
            current_screen: Screen::Connection,
            selected_doc_index: 0,
            doc_scroll_offset: 0,
            connection_input: "mongodb://localhost:27017".to_owned(),
            mode: InputMode::Normal,
            filter_input: String::new(),
            query_input: String::new(),
            connection_history: Vec::new(),
            selected_history_index: 0,
            show_history: false,
        }
    }

    /// Records a successful connection, replacing any earlier one.
    pub fn set_connection(&mut self, uri: String, server_info: ServerInfo)
        ensures
            *final(self) == (AppState {
                connection: Some(ConnectionState { uri, server_info }),
                ..*old(self)
            }),
    {
        self.connection = Some(ConnectionState { uri, server_info });
    }

    /// Replaces the database list and puts the cursor on its first entry.
    pub fn set_databases(&mut self, databases: Vec<DatabaseInfo>)
        ensures
            *final(self) == (AppState { databases, selected_db_index: 0, ..*old(self) }),
    {
        self.databases = databases;
        self.selected_db_index = 0;
    }

    /// Replaces the collection list and puts the cursor on its first entry.
    pub fn set_collections(&mut self, collections: Vec<CollectionInfo>)
        ensures
            *final(self) == (AppState { collections, selected_coll_index: 0, ..*old(self) }),
    {
        self.collections = collections;
        self.selected_coll_index = 0;
    }

    /// Replaces the document list and puts the cursor on its first entry.
    pub fn set_documents(&mut self, documents: Vec<Document>)
        ensures
            *final(self) == (AppState { documents, selected_doc_index: 0, ..*old(self) }),
    {
        self.documents = documents;
        self.selected_doc_index = 0;
    }

    pub fn set_loading(&mut self, loading: bool)
        ensures
            *final(self) == (AppState { loading, ..*old(self) }),
    {
        self.loading = loading;
    }

    pub fn set_error(&mut self, error: Option<String>)
        ensures
            *final(self) == (AppState { error, ..*old(self) }),
    {
        self.error = error;
    }

    /// Asks the run loop to stop. There is no way back: no other method
    /// clears the flag.
    pub fn quit(&mut self)
        ensures
            *final(self) == (AppState { should_quit: true, ..*old(self) }),
    {
        self.should_quit = true;
    }

    pub fn is_connected(&self) -> (r: bool)
        ensures
            r == self.connection is Some,
    {
        self.connection.is_some()
    }

    pub fn select_next_db(&mut self)
        ensures
            *final(self) == (AppState {
                selected_db_index: next_index(
                    old(self).selected_db_index as nat,
                    old(self).databases@.len(),
                ) as usize,
                ..*old(self)
            }),
    {
        self.selected_db_index = step_next(self.selected_db_index, self.databases.len());
    }

    pub fn select_prev_db(&mut self)
        ensures
            *final(self) == (AppState {
                selected_db_index: prev_index(
                    old(self).selected_db_index as nat,
                    old(self).databases@.len(),
                ) as usize,
                ..*old(self)
            }),
    {
        self.selected_db_index = step_prev(self.selected_db_index, self.databases.len());
    }

    pub fn select_next_coll(&mut self)
        ensures
            *final(self) == (AppState {
                selected_coll_index: next_index(
                    old(self).selected_coll_index as nat,
                    old(self).collections@.len(),
                ) as usize,
                ..*old(self)
            }),
    {
        self.selected_coll_index = step_next(self.selected_coll_index, self.collections.len());
    }

    pub fn select_prev_coll(&mut self)
        ensures
            *final(self) == (AppState {
                selected_coll_index: prev_index(
                    old(self).selected_coll_index as nat,
                    old(self).collections@.len(),
                ) as usize,
                ..*old(self)
            }),
    {
        self.selected_coll_index = step_prev(self.selected_coll_index, self.collections.len());
    }

    /// The database under the cursor, if the cursor points into the list.
    pub fn get_selected_database(&self) -> (r: Option<&DatabaseInfo>)
        ensures
            r is Some <==> selected(self.databases@, self.selected_db_index as nat) is Some,
            r matches Some(d) ==> *d == self.databases@[self.selected_db_index as int],
    {
        if self.selected_db_index < self.databases.len() {
            Some(&self.databases[self.selected_db_index])
        } else {
            None
        }
    }

    /// The collection under the cursor, if the cursor points into the list.
    pub fn get_selected_collection(&self) -> (r: Option<&CollectionInfo>)
        ensures
            r is Some <==> selected(self.collections@, self.selected_coll_index as nat) is Some,
            r matches Some(c) ==> *c == self.collections@[self.selected_coll_index as int],
    {
        if self.selected_coll_index < self.collections.len() {
            Some(&self.collections[self.selected_coll_index])
        } else {
            None
        }
    }

    /// Switches the view; nothing else changes.
    pub fn set_screen(&mut self, screen: Screen)
        ensures
            *final(self) == (AppState { current_screen: screen, ..*old(self) }),
    {
        self.current_screen = screen
    }

    pub fn select_next_doc(&mut self)
        ensures
            *final(self) == (AppState {
                selected_doc_index: next_index(
                    old(self).selected_doc_index as nat,
                    old(self).documents@.len(),
                ) as usize,
                ..*old(self)
            }),
    {
        self.selected_doc_index = step_next(self.selected_doc_index, self.documents.len());
    }

    pub fn select_prev_doc(&mut self)
        ensures
            *final(self) == (AppState {
                selected_doc_index: prev_index(
                    old(self).selected_doc_index as nat,
                    old(self).documents@.len(),
                ) as usize,
                ..*old(self)
            }),
    {
        self.selected_doc_index = step_prev(self.selected_doc_index, self.documents.len());
    }

    /// Scrolls the document content one line down; the offset stops at the
    /// largest `usize` (the renderer clamps it to the content anyway).
    pub fn scroll_doc_down(&mut self)
        ensures
            *final(self) == (AppState {
                doc_scroll_offset: if old(self).doc_scroll_offset < usize::MAX {
                    (old(self).doc_scroll_offset + 1) as usize
                } else {
                    usize::MAX
                },
                ..*old(self)
            }),
    {
        if self.doc_scroll_offset < usize::MAX {
            self.doc_scroll_offset = self.doc_scroll_offset + 1;
        }
    }

    /// Scrolls the document content one line up, stopping at the top.
    pub fn scroll_doc_up(&mut self)
        ensures
            *final(self) == (AppState {
                doc_scroll_offset: if old(self).doc_scroll_offset > 0 {
                    (old(self).doc_scroll_offset - 1) as usize
                } else {
                    0
                },
                ..*old(self)
            }),
    {
        if self.doc_scroll_offset > 0 {
            self.doc_scroll_offset = self.doc_scroll_offset - 1;
        }
    }

    /// The document under the cursor, if the cursor points into the list.
    pub fn get_selected_document(&self) -> (r: Option<&Document>)
        ensures
            r is Some <==> selected(self.documents@, self.selected_doc_index as nat) is Some,
            r matches Some(d) ==> *d == self.documents@[self.selected_doc_index as int],
    {
        if self.selected_doc_index < self.documents.len() {
            Some(&self.documents[self.selected_doc_index])
        } else {
            None
        }
    }

    /// Starts editing the connection address.
    pub fn enter_input_mode(&mut self)
        ensures
            *final(self) == (AppState { mode: InputMode::Connection, ..*old(self) }),
    {
        self.mode = InputMode::Connection;
    }

    /// Ends editing the connection address, if that is the session in
    /// progress; the text typed so far is kept.
    pub fn exit_input_mode(&mut self)
        ensures
            *final(self) == (AppState {
                mode: if old(self).mode == InputMode::Connection {
                    InputMode::Normal
                } else {
                    old(self).mode
                },
                ..*old(self)
            }),
    {
        if self.mode == InputMode::Connection {
            self.mode = InputMode::Normal;
        }
    }

    /// Empties the connection address.
    pub fn clear_input(&mut self)
        ensures
            final(self).connection_input@.len() == 0,
            *final(self) == (AppState { connection_input: final(self).connection_input, ..*old(self) }),
    {
        clear_text(&mut self.connection_input);
    }

    /// Appends a character to the connection address.
    pub fn push_char(&mut self, c: char)
        ensures
            final(self).connection_input@ == old(self).connection_input@.push(c),
            *final(self) == (AppState { connection_input: final(self).connection_input, ..*old(self) }),
    {
        push_text(&mut self.connection_input, c);
    }

    /// Removes the last character of the connection address, if any.
    pub fn pop_char(&mut self)
        ensures
            final(self).connection_input@ == (if old(self).connection_input@.len() == 0 {
                old(self).connection_input@
            } else {
                old(self).connection_input@.drop_last()
            }),
            *final(self) == (AppState { connection_input: final(self).connection_input, ..*old(self) }),
    {
        pop_text(&mut self.connection_input);
    }

    /// Starts editing the search text.
    pub fn enter_filter_mode(&mut self)
        ensures
            *final(self) == (AppState { mode: InputMode::Filter, ..*old(self) }),
    {
        self.mode = InputMode::Filter;
    }

    /// Ends editing the search text, if that is the session in
    /// progress; the text typed so far is kept.
    pub fn exit_filter_mode(&mut self)
        ensures
            *final(self) == (AppState {
                mode: if old(self).mode == InputMode::Filter {
                    InputMode::Normal
                } else {
                    old(self).mode
                },
                ..*old(self)
            }),
    {
        if self.mode == InputMode::Filter {
            self.mode = InputMode::Normal;
        }
    }

    /// Empties the search text and drops the compiled filter with it.
    pub fn clear_filter(&mut self)
        ensures
            final(self).filter_input@.len() == 0,
            *final(self) == (AppState {
                filter_input: final(self).filter_input,
                filter: None,
                ..*old(self)
            }),
    {
        clear_text(&mut self.filter_input);
        self.filter = None;
    }

    /// Appends a character to the search text.
    pub fn push_filter_char(&mut self, c: char)
        ensures
            final(self).filter_input@ == old(self).filter_input@.push(c),
            *final(self) == (AppState { filter_input: final(self).filter_input, ..*old(self) }),
    {
        push_text(&mut self.filter_input, c);
    }

    /// Removes the last character of the search text, if any.
    pub fn pop_filter_char(&mut self)
        ensures
            final(self).filter_input@ == (if old(self).filter_input@.len() == 0 {
                old(self).filter_input@
            } else {
                old(self).filter_input@.drop_last()
            }),
            *final(self) == (AppState { filter_input: final(self).filter_input, ..*old(self) }),
    {
        pop_text(&mut self.filter_input);
    }

    /// Installs the outcome of converting parsed filter text: a document
    /// replaces the filter, a failure leaves the state as it was.
    pub fn install_filter(
        &mut self,
        converted: Result<Document, String>,
    ) -> (r: Result<(), FilterError>)
        ensures
            match converted {
                Ok(d) => r is Ok && *final(self) == (AppState { filter: Some(d), ..*old(self) }),
                Err(m) => r == Err::<(), FilterError>(FilterError::InvalidFilter(m))
                    && *final(self) == *old(self),
            },
    {
        match converted {
            Ok(d) => {
                self.filter = Some(d);
                Ok(())
            },
            Err(m) => Err(FilterError::InvalidFilter(m)),
        }
    }

    /// Compiles the query text, or the search text when no query is typed,
    /// into the filter. Empty text removes the filter. Text that is not JSON
    /// is an `InvalidSyntax` error and JSON that is no document an
    /// `InvalidFilter` error; after an error the filter is what it was.
    pub fn apply_filter(&mut self) -> (r: Result<(), FilterError>)
        ensures
            old(self).compile_source().len() == 0 ==> r is Ok && *final(self) == (AppState {
                filter: None,
                ..*old(self)
            }),
            old(self).compile_source().len() > 0 && !json_accepts(old(self).compile_source())
                ==> (r matches Err(FilterError::InvalidSyntax(_))),
            old(self).compile_source().len() > 0 && json_accepts(old(self).compile_source())
                && json_converts(old(self).compile_source()) ==> r is Ok,
            old(self).compile_source().len() > 0 && json_accepts(old(self).compile_source())
                && !json_converts(old(self).compile_source())
                ==> (r matches Err(FilterError::InvalidFilter(_))),
            old(self).compile_source().len() > 0 && r is Ok ==> final(self).filter is Some,
            r is Err ==> *final(self) == *old(self),
            *final(self) == (AppState { filter: final(self).filter, ..*old(self) }),
    {
        let text: &str = if !self.query_input.as_str().is_empty() {
            self.query_input.as_str()
        } else {
            self.filter_input.as_str()
        };
        if text.is_empty() {
            self.filter = None;
            return Ok(());
        }
        match parse_json(text) {
            Ok(parsed) => {
                let converted = to_filter_document(&parsed);
                self.install_filter(converted)
            },
            Err(m) => Err(FilterError::InvalidSyntax(m)),
        }
    }

    /// Starts editing a raw JSON query.
    pub fn enter_query_mode(&mut self)
        ensures
            *final(self) == (AppState { mode: InputMode::Query, ..*old(self) }),
    {
        self.mode = InputMode::Query;
    }

    /// Ends editing a raw JSON query, if that is the session in
    /// progress; the text typed so far is kept.
    pub fn exit_query_mode(&mut self)
        ensures
            *final(self) == (AppState {
                mode: if old(self).mode == InputMode::Query {
                    InputMode::Normal
                } else {
                    old(self).mode
                },
                ..*old(self)
            }),
    {
        if self.mode == InputMode::Query {
            self.mode = InputMode::Normal;
        }
    }

    /// Appends a character to the query text without touching the editing session.
    pub fn push_every_char(&mut self, c: char)
        ensures
            final(self).query_input@ == old(self).query_input@.push(c),
            *final(self) == (AppState { query_input: final(self).query_input, ..*old(self) }),
    {
        push_text(&mut self.query_input, c);
    }

    /// Removes the last character of the query text, if any, without touching the editing session.
    pub fn pop_every_char(&mut self)
        ensures
            final(self).query_input@ == (if old(self).query_input@.len() == 0 {
                old(self).query_input@
            } else {
                old(self).query_input@.drop_last()
            }),
            *final(self) == (AppState { query_input: final(self).query_input, ..*old(self) }),
    {
        pop_text(&mut self.query_input);
    }

    /// Empties the query text; the compiled filter is left as it is.
    pub fn clear_query(&mut self)
        ensures
            final(self).query_input@.len() == 0,
            *final(self) == (AppState { query_input: final(self).query_input, ..*old(self) }),
    {
        clear_text(&mut self.query_input);
    }

    /// Appends a character to the query text.
    pub fn push_query_char(&mut self, c: char)
        ensures
            final(self).query_input@ == old(self).query_input@.push(c),
            *final(self) == (AppState { query_input: final(self).query_input, ..*old(self) }),
    {
        push_text(&mut self.query_input, c);
    }

    /// Removes the last character of the query text, if any.
    pub fn pop_query_char(&mut self)
        ensures
            final(self).query_input@ == (if old(self).query_input@.len() == 0 {
                old(self).query_input@
            } else {
                old(self).query_input@.drop_last()
            }),
            *final(self) == (AppState { query_input: final(self).query_input, ..*old(self) }),
    {
        pop_text(&mut self.query_input);
    }

    /// Replaces the connection history and puts the cursor on its first
    /// entry, as every other list setter does, so that a shorter history
    /// never leaves the cursor past its end.
    pub fn set_connection_history(&mut self, history: Vec<String>)
        ensures
            *final(self) == (AppState {
                connection_history: history,
                selected_history_index: 0,
                ..*old(self)
            }),
    {
        self.connection_history = history;
        self.selected_history_index = 0;
    }

    pub fn toggle_history(&mut self)
        ensures
            *final(self) == (AppState { show_history: !old(self).show_history, ..*old(self) }),
    {
        self.show_history = !self.show_history;
    }

    pub fn select_next_history(&mut self)
        ensures
            *final(self) == (AppState {
                selected_history_index: next_index(
                    old(self).selected_history_index as nat,
                    old(self).connection_history@.len(),
                ) as usize,
                ..*old(self)
            }),
    {
        self.selected_history_index = step_next(
            self.selected_history_index,
            self.connection_history.len(),
        );
    }

    pub fn select_prev_history(&mut self)
        ensures
            *final(self) == (AppState {
                selected_history_index: prev_index(
                    old(self).selected_history_index as nat,
                    old(self).connection_history@.len(),
                ) as usize,
                ..*old(self)
            }),
    {
        self.selected_history_index = step_prev(
            self.selected_history_index,
            self.connection_history.len(),
        );
    }

    /// A copy of the address under the history cursor, if the cursor points
    /// into the history.
    pub fn get_selected_history_uri(&self) -> (r: Option<String>)
        ensures
            r == selected(self.connection_history@, self.selected_history_index as nat),
    {
        if self.selected_history_index < self.connection_history.len() {
            Some(self.connection_history[self.selected_history_index].clone())
        } else {
            None
        }
    }
}

impl Default for AppState {
    fn default() -> (r: Self)
        ensures
            r.is_fresh(),
    {
        Self::new()
    }
}

} // verus!
