//! The settings of a run, and what a run does with each line.

use crate::catalog::{
    builtin_expression, builtin_patterns, select, selection, ActivePatternSet, CatalogError,
    PatternCatalog,
};
use crate::category::Category;
use crate::matcher::regex_compiles;
use crate::record::{classification, classify};
use vstd::prelude::*;

verus! {

/// What is to be done with a line once it is handled.
#[derive(Debug, PartialEq, Eq)]
pub enum Action {
    /// Nothing: the line could not be read, or is not juicy.
    Skip,
    /// Print the message.
    Print(String),
    /// Append the message to the output file.
    Append(String),
}

/// The settings of a run.
#[derive(Debug, PartialEq, Eq)]
pub struct DataSurgeon {
    /// Names of the categories asked for; none asks for all of them.
    pub requested: Vec<String>,
    /// Path of the file that takes the messages, or empty.
    pub output_file: String,
    /// Path of the file to read, or empty to read the standard input.
    pub filename: String,
    /// Whether a message reports the extracted value in place of the line.
    pub clean: bool,
    /// Whether the messages go to the output file.
    pub is_output: bool,
}

/// The message for a line that was classified as `category` with `value`.
pub open spec fn report(text: Seq<char>, category: Category, value: Seq<char>, clean: bool) -> Seq<
    char,
> {
    category.name() + ": "@ + (if clean {
        value
    } else {
        text
    })
}

impl DataSurgeon {
    /// Whether the messages go to the output file exactly where one is set.
    pub open spec fn wf(&self) -> bool {
        self.is_output == (self.output_file@.len() > 0)
    }

    /// The settings of a run that reads the standard input, prints whole
    /// lines, and looks for the categories named in `requested`.
    pub fn new(requested: Vec<String>) -> (ds: DataSurgeon)
        ensures
            ds.requested == requested,
            ds.output_file@.len() == 0,
            ds.filename@.len() == 0,
            !ds.clean,
            !ds.is_output,
            ds.wf(),
    {
        DataSurgeon {
            requested,
            output_file: String::new(),
            filename: String::new(),
            clean: false,
            is_output: false,
        }
    }

    /// Takes over the arguments of the run: the output file and the file to
    /// read, each empty where it is not given, and the mode of the messages.
    pub fn build_arguments(&mut self, output: Option<String>, clean: bool, file: Option<String>)
        ensures
            final(self).requested == old(self).requested,
            final(self).output_file@ == (match output {
                Some(path) => path@,
                None => Seq::<char>::empty(),
            }),
            final(self).filename@ == (match file {
                Some(path) => path@,
                None => Seq::<char>::empty(),
            }),
            final(self).clean == clean,
            final(self).wf(),
    {
        self.output_file = match output {
            Some(path) => path,
            None => String::new(),
        };
        self.is_output = !self.output_file.as_str().is_empty();
        self.clean = clean;
        self.filename = match file {
            Some(path) => path,
            None => String::new(),
        };
    }

    /// Tells whether the run reads a file, and not the standard input.
    pub fn reads_file(&self) -> (b: bool)
        ensures
            b == (self.filename@.len() > 0),
    {
        !self.filename.as_str().is_empty()
    }

    /// Builds the built-in catalog and narrows it to the categories asked
    /// for.
    pub fn build_regex_query(&self) -> (r: Result<ActivePatternSet, CatalogError>)
        ensures
            r is Ok <==> forall|c: Category| regex_compiles(#[trigger] builtin_expression(c)),
            r matches Ok(active) ==> active@ == selection(
                builtin_patterns(),
                self.requested.deep_view(),
            ),
            r matches Err(e) ==> e matches CatalogError::Malformed(c) && !regex_compiles(
                builtin_expression(c),
            ) && forall|d: Category|
                d.rank() < c.rank() ==> regex_compiles(#[trigger] builtin_expression(d)),
    {
        match PatternCatalog::builtin() {
            Ok(catalog) => Ok(select(&catalog, &self.requested)),
            Err(e) => Err(e),
        }
    }

    /// Decides what to do with one line of input.
    ///
    /// A line that could not be read is skipped, and so is one that is not
    /// juicy. A juicy line gives one message, for the output file where one
    /// is set and to print otherwise.
    pub fn handle<E>(&self, line: &Result<String, E>, regex_map: &ActivePatternSet) -> (action:
        Action)
        ensures
            match line {
                Ok(text) => match classification(regex_map@, text@) {
                    Some((category, value)) => if self.is_output {
                        action matches Action::Append(m) && m@ == report(
                            text@,
                            category,
                            value,
                            self.clean,
                        )
                    } else {
                        action matches Action::Print(m) && m@ == report(
                            text@,
                            category,
                            value,
                            self.clean,
                        )
                    },
                    None => action is Skip,
                },
                Err(_) => action is Skip,
            },
    {
        let line = match line {
            Ok(line) => line,
            Err(_) => {
                return Action::Skip;
            },
        };
        if line.as_str().is_empty() {
            return Action::Skip;
        }
        let data = classify(regex_map, line.clone());
        if data.is_juicy {
            let message = if self.clean {
                data.to_exact_message()
            } else {
                data.to_message()
            };
            if self.is_output {
                return Action::Append(message);
            }
            return Action::Print(message);
        }
        Action::Skip
    }
}

} // verus!
