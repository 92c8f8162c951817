//! The state of the converter's page and how its events change it.
use vstd::prelude::*;
use crate::convert::{forest_syntax, nodes_to_syntax};
use crate::model::{Node, Options};
use crate::syntax::children_depth;

verus! {

/// An event of the page.
pub enum Msg {
    /// The markup in the input box changed.
    ChangeInput(String),
    /// The convert button was pressed.
    Convert,
    /// The `node!` macro box was toggled.
    ToggleMacro,
    /// The array box was toggled.
    ToggleArray,
}

/// What the page holds: the markup, the last text written, and the options.
pub struct App {
    pub input: String,
    pub output: String,
    pub options: Options,
    pub node_macro_checkbox: bool,
    pub array_checkbox: bool,
}

impl Default for App {
    fn default() -> (r: App)
        ensures
            r.input@.len() == 0,
            r.output@.len() == 0,
            !r.options.use_macro,
            !r.options.use_array,
            !r.node_macro_checkbox,
            !r.array_checkbox,
    {
        App {
            input: String::new(),
            output: String::new(),
            options: Options { use_macro: false, use_array: false },
            node_macro_checkbox: false,
            array_checkbox: false,
        }
    }
}

impl App {
    /// Shows the options in the check boxes.
    pub fn init(&mut self)
        ensures
            final(self).node_macro_checkbox == old(self).options.use_macro,
            final(self).array_checkbox == old(self).options.use_array,
            final(self).options == old(self).options,
            final(self).input == old(self).input,
            final(self).output == old(self).output,
    {
        self.node_macro_checkbox = self.options.use_macro;
        self.array_checkbox = self.options.use_array;
    }

    /// Applies an event. Returns whether the input is now to be parsed and its
    /// forest handed to `show_conversion`; no other event asks for that.
    pub fn update(&mut self, msg: Msg) -> (convert: bool)
        ensures
            convert == (msg is Convert),
            final(self).output == old(self).output,
            final(self).node_macro_checkbox == old(self).node_macro_checkbox,
            final(self).array_checkbox == old(self).array_checkbox,
            match msg {
                Msg::ChangeInput(s) => final(self).input == s && final(self).options
                    == old(self).options,
                Msg::Convert => final(self).input == old(self).input && final(self).options
                    == old(self).options,
                Msg::ToggleMacro => final(self).input == old(self).input
                    && final(self).options.use_macro == !old(self).options.use_macro
                    && final(self).options.use_array == old(self).options.use_array,
                Msg::ToggleArray => final(self).input == old(self).input
                    && final(self).options.use_array == !old(self).options.use_array
                    && final(self).options.use_macro == old(self).options.use_macro,
            },
    {
        match msg {
            Msg::ChangeInput(input) => {
                self.input = input;
                false
            },
            Msg::Convert => true,
            Msg::ToggleMacro => {
                self.options.use_macro = !self.options.use_macro;
                false
            },
            Msg::ToggleArray => {
                self.options.use_array = !self.options.use_array;
                false
            },
        }
    }

    /// Shows the text for the forest parsed from the input, under the current options.
    pub fn show_conversion(&mut self, forest: Vec<Node>)
        requires
            children_depth(forest@) + 3 <= usize::MAX,
        ensures
            final(self).output@ == forest_syntax(forest@, old(self).options),
            final(self).input == old(self).input,
            final(self).options == old(self).options,
            final(self).node_macro_checkbox == old(self).node_macro_checkbox,
            final(self).array_checkbox == old(self).array_checkbox,
    {
        self.output = nodes_to_syntax(forest, self.options);
    }
}

} // verus!
