//! The state of one conversation with a model.

use std::marker::PhantomData;
use vstd::pervasive::unreached;
use vstd::prelude::*;
use vstd::string::StringExecFns;
use crate::types;

verus! {

/// Marks a conversation whose answers are free text.
#[derive(Debug)]
pub struct Text {}

/// Marks a conversation whose answers are JSON documents.
#[derive(Debug)]
pub struct Json {}

/// The MIME type that asks the model for JSON.
pub const JSON_MIME_TYPE: &'static str = "application/json";

/// What a conversation holds, the generation settings apart.
pub ghost struct Talk {
    pub model: Seq<char>,
    pub system_instruction: Option<Seq<char>>,
    pub safety_settings: Vec<types::SafetySettings>,
    pub history: Seq<types::Content>,
}

/// A conversation: the model, the messages exchanged so far, and the
/// settings under which the next message is sent.
#[derive(Debug)]
pub struct Chat<T> {
    model: String,
    system_instruction: Option<String>,
    safety_settings: Vec<types::SafetySettings>,
    history: Vec<types::Content>,
    config: Option<types::GenerationConfig>,
    phantom: PhantomData<T>,
}

impl<T> Chat<T> {
    /// All that the conversation holds but the generation settings.
    pub closed spec fn talk(&self) -> Talk {
        Talk {
            model: self.model@,
            system_instruction: match self.system_instruction {
                Some(s) => Some(s@),
                None => None,
            },
            safety_settings: self.safety_settings,
            history: self.history@,
        }
    }

    /// The generation settings, if any were made.
    pub closed spec fn settings(&self) -> Option<types::GenerationConfig> {
        self.config
    }

    /// A conversation with `model` in which nothing was said or set yet.
    pub fn new(model: &str) -> (r: Self)
        ensures
            r.talk().model == model@,
            r.talk().system_instruction is None,
            r.talk().safety_settings@.len() == 0,
            r.talk().history.len() == 0,
            r.settings() is None,
    {
        Chat {
            model: String::from_str(model),
            system_instruction: None,
            safety_settings: Vec::new(),
            history: Vec::new(),
            config: None,
            phantom: PhantomData,
        }
    }

    /// The name of the model.
    pub fn model(&self) -> (r: &str)
        ensures
            r@ == self.talk().model,
    {
        self.model.as_str()
    }

    /// The system instruction, if one was given.
    pub fn instruction(&self) -> (r: Option<&str>)
        ensures
            match r {
                Some(s) => self.talk().system_instruction == Some(s@),
                None => self.talk().system_instruction is None,
            },
    {
        match &self.system_instruction {
            Some(s) => Some(s.as_str()),
            None => None,
        }
    }

    /// The safety settings in force.
    pub fn safety(&self) -> (r: &Vec<types::SafetySettings>)
        ensures
            *r == self.talk().safety_settings,
    {
        &self.safety_settings
    }

    /// The generation settings, if any were made.
    pub fn current_config(&self) -> (r: Option<&types::GenerationConfig>)
        ensures
            match r {
                Some(c) => self.settings() == Some(*c),
                None => self.settings() is None,
            },
    {
        self.config.as_ref()
    }

    /// The generation settings, made with nothing set where there were none.
    pub fn config(&mut self) -> (r: &types::GenerationConfig)
        ensures
            final(self).talk() == old(self).talk(),
            final(self).settings() == Some(*r),
            match old(self).settings() {
                Some(c) => *r == c,
                None => r.is_unset(),
            },
    {
        if self.config.is_none() {
            self.config = Some(types::GenerationConfig::default());
        }
        self.config.as_ref().unwrap()
    }

    /// The generation settings, open to change, made with nothing set where
    /// there were none.
    pub fn config_mut(&mut self) -> (r: &mut types::GenerationConfig)
        ensures
            match old(self).settings() {
                Some(c) => *r == c,
                None => r.is_unset(),
            },
            final(self).talk() == old(self).talk(),
            final(self).settings() == Some(*final(r)),
    {
        if self.config.is_none() {
            self.config = Some(types::GenerationConfig::default());
        }
        match &mut self.config {
            Some(c) => c,
            None => unreached(),
        }
    }

    /// The same conversation, asking for answers in JSON: the response MIME
    /// type is set to [`JSON_MIME_TYPE`] and all else is kept.
    pub fn to_json(self) -> (r: Chat<Json>)
        ensures
            r.talk() == self.talk(),
            r.settings() matches Some(c) && (c.response_mime_type matches Some(m) && m@
                == JSON_MIME_TYPE@) && (match self.settings() {
                Some(before) => c == (types::GenerationConfig {
                    response_mime_type: c.response_mime_type,
                    ..before
                }),
                None => (types::GenerationConfig { response_mime_type: None, ..c }).is_unset(),
            }),
    {
        let mut config = match self.config {
            Some(c) => c,
            None => types::GenerationConfig::default(),
        };
        config.response_mime_type = Some(String::from_str(JSON_MIME_TYPE));
        Chat {
            model: self.model,
            system_instruction: self.system_instruction,
            safety_settings: self.safety_settings,
            history: self.history,
            config: Some(config),
            phantom: PhantomData,
        }
    }

    /// The messages exchanged so far, oldest first.
    pub fn history(&self) -> (r: &[types::Content])
        ensures
            r@ == self.talk().history,
    {
        self.history.as_slice()
    }

    /// The messages exchanged so far, open to change.
    pub fn history_mut(&mut self) -> (r: &mut Vec<types::Content>)
        ensures
            r@ == old(self).talk().history,
            final(self).settings() == old(self).settings(),
            final(self).talk() == (Talk { history: final(r)@, ..old(self).talk() }),
    {
        &mut self.history
    }

    /// Replaces the safety settings.
    pub fn safety_settings(&mut self, safety_settings: Vec<types::SafetySettings>)
        ensures
            final(self).talk() == (Talk { safety_settings, ..old(self).talk() }),
            final(self).settings() == old(self).settings(),
    {
        self.safety_settings = safety_settings;
    }

    /// The same conversation under the system instruction `instruction`.
    pub fn system_instruction(self, instruction: &str) -> (r: Self)
        ensures
            r.talk() == (Talk { system_instruction: Some(instruction@), ..self.talk() }),
            r.settings() == self.settings(),
    {
        let mut chat = self;
        chat.system_instruction = Some(String::from_str(instruction));
        chat
    }

    /// Puts a message of the user with the text `message` at the end of the
    /// history, ready to be sent.
    pub fn send_message(&mut self, message: &str)
        ensures
            final(self).settings() == old(self).settings(),
            final(self).talk().history.len() == old(self).talk().history.len() + 1,
            final(self).talk().history.drop_last() == old(self).talk().history,
            final(self).talk().history.last().is_user_text(message@),
            final(self).talk() == (Talk {
                history: final(self).talk().history,
                ..old(self).talk()
            }),
    {
        self.history.push(types::Content::user_text(message));
        assert(self.history@.drop_last() =~= old(self).history@);
    }

    /// Puts a message of the user with the parts `parts` at the end of the
    /// history, ready to be sent.
    pub fn send_parted_messages(&mut self, parts: Vec<types::Part>)
        ensures
            final(self).settings() == old(self).settings(),
            final(self).talk() == (Talk {
                history: old(self).talk().history.push(
                    types::Content { role: types::Role::User, parts },
                ),
                ..old(self).talk()
            }),
    {
        self.history.push(types::Content { role: types::Role::User, parts });
    }
}

impl Chat<Json> {
    /// The same conversation, with `schema` as the schema that answers have
    /// to follow.
    pub fn response_schema(self, schema: types::Schema) -> (r: Self)
        ensures
            r.talk() == self.talk(),
            r.settings() matches Some(c) && c.response_schema == Some(schema) && (
            match self.settings() {
                Some(before) => c == (types::GenerationConfig {
                    response_schema: Some(schema),
                    ..before
                }),
                None => (types::GenerationConfig { response_schema: None, ..c }).is_unset(),
            }),
    {
        let mut config = match self.config {
            Some(c) => c,
            None => types::GenerationConfig::default(),
        };
        config.response_schema = Some(schema);
        Chat {
            model: self.model,
            system_instruction: self.system_instruction,
            safety_settings: self.safety_settings,
            history: self.history,
            config: Some(config),
            phantom: PhantomData,
        }
    }
}

} // verus!
