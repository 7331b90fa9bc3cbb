use vstd::prelude::*;
use vstd::string::StringExecFns;

use crate::conversation::{conv_echo, conv_msg_views, remaining_tokens_of, Conversation, Exchange};
use crate::error::ChatError;
use crate::message::{
    estimate_of, estimate_sat, Message, MessageRole, MessageView, msg_views, within_max_tokens_limit,
    MAX_TOKENS,
};
use crate::role::{role_prelude, role_usable, Role};
use crate::text::{
    bool_display, bool_of, bool_text, parse_bool, parse_temperature, split_words, str_eq,
    temp_display, temp_of, temp_text, words_of,
};

verus! {

/// The default for the highlight setting.
pub fn highlight_value() -> (r: bool)
    ensures
        r,
{
    true
}

/// The resolved configuration a request runs under, together with the
/// process-wide session state: the selectable roles, the active role,
/// and the one live conversation slot. The temperature is carried in
/// hundredths of the sampling temperature.
#[derive(Debug)]
pub struct Config {
    pub api_key: String,
    pub temperature: Option<u32>,
    pub save: bool,
    pub highlight: bool,
    pub proxy: Option<String>,
    pub dry_run: bool,
    pub conversation_first: bool,
    pub roles: Vec<Role>,
    pub role: Option<Role>,
    pub conversation: Option<Conversation>,
}

/// The two fields the session commands may touch are left out: all
/// settings and the role list are the same.
pub open spec fn same_settings(a: Config, b: Config) -> bool {
    &&& b.api_key == a.api_key
    &&& b.temperature == a.temperature
    &&& b.save == a.save
    &&& b.highlight == a.highlight
    &&& b.proxy == a.proxy
    &&& b.dry_run == a.dry_run
    &&& b.conversation_first == a.conversation_first
    &&& b.roles == a.roles
}

/// The first selectable role carrying the name, front to back.
pub open spec fn find_role_spec(roles: Seq<Role>, name: Seq<char>) -> Option<Role>
    decreases roles.len(),
{
    if roles.len() == 0 {
        None
    } else if roles[0].name@ == name {
        Some(roles[0])
    } else {
        find_role_spec(roles.skip(1), name)
    }
}

/// The readable rendering of a role: name, prompt, and the temperature
/// override when one is set.
pub open spec fn role_details_text(r: Role) -> Seq<char> {
    "name: "@ + r.name@ + "\nprompt: "@ + r.prompt@ + "\n"@ + (match r.temperature {
        Some(t) => "temperature: "@ + temp_text(t as nat) + "\n"@,
        None => Seq::<char>::empty(),
    })
}

/// The temperature a request runs under: the active role's override if
/// any, else the configured default.
pub open spec fn temperature_of(c: Config) -> Option<u32> {
    match c.role {
        Some(r) => if r.temperature is Some {
            r.temperature
        } else {
            c.temperature
        },
        None => c.temperature,
    }
}

/// The dry-run echo: the conversation's if one is live, else the active
/// role's, else the input itself.
pub open spec fn config_echo(c: Config, input: Seq<char>) -> Seq<char> {
    match c.conversation {
        Some(conv) => conv_echo(conv.role, conv.exchanges@, input),
        None => match c.role {
            Some(r) => r.prompt@ + "\n"@ + input,
            None => input,
        },
    }
}

/// The roles that would enter a request are usable: whichever role the
/// next request would snapshot its system prompt from, if any, has a
/// non-empty prompt.
pub open spec fn request_roles_usable(c: Config) -> bool {
    match c.conversation {
        Some(conv) => match conv.role {
            Some(r) => role_usable(r),
            None => true,
        },
        None => match c.role {
            Some(r) => role_usable(r),
            None => true,
        },
    }
}

/// The message sequence sent on the wire: the conversation's if one is
/// live, else the active role's prelude plus the input, else the input
/// alone.
pub open spec fn config_build_views(c: Config, input: Seq<char>) -> Seq<MessageView> {
    match c.conversation {
        Some(conv) => conv_msg_views(conv.role, conv.exchanges@, input),
        None => match c.role {
            Some(r) => role_prelude(Some(r)).push(
                MessageView { role: MessageRole::User, content: input },
            ),
            None => seq![MessageView { role: MessageRole::User, content: input }],
        },
    }
}

impl Config {
    /// A fresh configuration with the given key and all defaults: no
    /// role bound, no conversation live, nothing persisted.
    pub fn new(api_key: &str) -> (r: Config)
        ensures
            r.api_key@ == api_key@,
            r.temperature is None,
            !r.save,
            r.highlight,
            r.proxy is None,
            !r.dry_run,
            !r.conversation_first,
            r.roles@ == Seq::<Role>::empty(),
            r.role is None,
            r.conversation is None,
    {
        Config {
            api_key: api_key.to_owned(),
            temperature: None,
            save: false,
            highlight: highlight_value(),
            proxy: None,
            dry_run: false,
            conversation_first: false,
            roles: Vec::new(),
            role: None,
            conversation: None,
        }
    }

    /// At the start of an interactive session: when configured so and
    /// no conversation is live yet, one is started immediately. A live
    /// conversation is never replaced here; that needs the caller's
    /// confirmation policy and an explicit start.
    pub fn on_repl(&mut self) -> (r: Result<(), ChatError>)
        ensures
            r is Ok,
            !(old(self).conversation_first && old(self).conversation is None) ==> *final(self)
                == *old(self),
            (old(self).conversation_first && old(self).conversation is None) ==> {
                &&& same_settings(*old(self), *final(self))
                &&& final(self).role == old(self).role
                &&& final(self).conversation matches Some(c) && c.role == old(self).role
                    && c.exchanges@ == Seq::<Exchange>::empty()
            },
    {
        if self.conversation_first && self.conversation.is_none() {
            self.start_conversation();
        }
        Ok(())
    }

    /// Finds the first selectable role with the given name.
    pub fn find_role(&self, name: &str) -> (r: Option<Role>)
        ensures
            r == find_role_spec(self.roles@, name@),
    {
        let mut i: usize = 0;
        proof {
            assert(self.roles@.skip(0) =~= self.roles@);
        }
        while i < self.roles.len()
            invariant
                i <= self.roles@.len(),
                find_role_spec(self.roles@.skip(i as int), name@) == find_role_spec(
                    self.roles@,
                    name@,
                ),
            decreases self.roles@.len() - i,
        {
            if str_eq(self.roles[i].name.as_str(), name) {
                return Some(self.roles[i].clone());
            }
            proof {
                assert(self.roles@.skip(i as int).skip(1) =~= self.roles@.skip(i + 1));
            }
            i = i + 1;
        }
        None
    }

    /// Switches the active role to the named one; a live conversation's
    /// bound role follows. Fails only when no role carries the name.
    pub fn change_role(&mut self, name: &str) -> (r: Result<String, ChatError>)
        ensures
            find_role_spec(old(self).roles@, name@) is None ==> r == Err::<String, ChatError>(
                ChatError::UnknownRole,
            ) && *final(self) == *old(self),
            find_role_spec(old(self).roles@, name@) matches Some(role) ==> {
                &&& r matches Ok(out) && out@ == role_details_text(role)
                &&& final(self).role == Some(role)
                &&& same_settings(*old(self), *final(self))
                &&& match old(self).conversation {
                    Some(c) => final(self).conversation matches Some(c2) && c2.role == Some(role)
                        && c2.exchanges@ == c.exchanges@,
                    None => final(self).conversation is None,
                }
            },
    {
        match self.find_role(name) {
            None => Err(ChatError::UnknownRole),
            Some(role) => {
                match &mut self.conversation {
                    Some(conv) => {
                        let _ = conv.update_role(&role);
                    },
                    None => {},
                }
                let out = role_details(&role);
                self.role = Some(role);
                Ok(out)
            },
        }
    }

    /// Drops the active role entirely. Rejected while a live
    /// conversation still has remaining budget: the caller must end the
    /// conversation first.
    pub fn clear_role(&mut self) -> (r: Result<(), ChatError>)
        ensures
            (old(self).conversation matches Some(c) && remaining_tokens_of(c.exchanges@)
                > 0) ==> r == Err::<(), ChatError>(ChatError::RoleChangeRejected) && *final(self)
                == *old(self),
            !(old(self).conversation matches Some(c) && remaining_tokens_of(c.exchanges@)
                > 0) ==> {
                &&& r is Ok
                &&& final(self).role is None
                &&& same_settings(*old(self), *final(self))
                &&& final(self).conversation == old(self).conversation
            },
    {
        match &self.conversation {
            Some(conv) => match conv.can_clear_role() {
                Err(e) => {
                    return Err(e);
                },
                Ok(_) => {},
            },
            None => {},
        }
        self.role = None;
        Ok(())
    }

    /// Binds a fresh temporary role built from the prompt and the
    /// configured default temperature; a live conversation follows.
    pub fn create_temp_role(&mut self, prompt: &str) -> (r: Result<(), ChatError>)
        ensures
            r is Ok,
            final(self).role matches Some(ro) && ro.name@ == Seq::<char>::empty() && ro.prompt@
                == prompt@ && ro.temperature == old(self).temperature,
            same_settings(*old(self), *final(self)),
            match old(self).conversation {
                Some(c) => final(self).conversation matches Some(c2)
                    && c2.role == final(self).role && c2.exchanges@ == c.exchanges@,
                None => final(self).conversation is None,
            },
    {
        let role = Role::new(prompt, self.temperature);
        match &mut self.conversation {
            Some(conv) => {
                let _ = conv.update_role(&role);
            },
            None => {},
        }
        self.role = Some(role);
        Ok(())
    }

    /// The temperature the next request runs under.
    pub fn get_temperature(&self) -> (r: Option<u32>)
        ensures
            r == temperature_of(*self),
    {
        match &self.role {
            Some(role) => match role.temperature {
                Some(t) => Some(t),
                None => self.temperature,
            },
            None => self.temperature,
        }
    }

    /// The dry-run echo for an input.
    pub fn echo_messages(&self, content: &str) -> (r: String)
        ensures
            r@ == config_echo(*self, content@),
    {
        match &self.conversation {
            Some(conv) => conv.echo_messages(content),
            None => match &self.role {
                Some(role) => role.echo_messages(content),
                None => content.to_owned(),
            },
        }
    }

    /// Builds the message sequence for an input and validates it against
    /// the token budget; a violation means no request may be dispatched.
    pub fn build_messages(&self, content: &str) -> (r: Result<Vec<Message>, ChatError>)
        requires
            request_roles_usable(*self),
        ensures
            r is Ok <==> estimate_of(config_build_views(*self, content@)) <= MAX_TOKENS,
            r matches Ok(m) ==> msg_views(m@) == config_build_views(*self, content@),
            r is Err ==> r == Err::<Vec<Message>, ChatError>(ChatError::ExceedsLimit {
                estimated: estimate_sat(config_build_views(*self, content@)) as u64,
                limit: MAX_TOKENS,
            }),
    {
        let messages: Vec<Message> = match &self.conversation {
            Some(conv) => conv.build_messages(content),
            None => match &self.role {
                Some(role) => role.build_messages(content),
                None => {
                    let mut v: Vec<Message> = Vec::new();
                    v.push(Message::new(content));
                    proof {
                        assert(msg_views(v@) =~= config_build_views(*self, content@));
                    }
                    v
                },
            },
        };
        match within_max_tokens_limit(&messages) {
            Err(e) => Err(e),
            Ok(_) => Ok(messages),
        }
    }

    /// Whether the role the next request would use is usable: its
    /// prompt is non-empty. Unverified callers test this before they
    /// dispatch a request.
    pub fn roles_usable(&self) -> (r: bool)
        ensures
            r == request_roles_usable(*self),
    {
        match &self.conversation {
            Some(conv) => match &conv.role {
                Some(role) => !role.prompt.as_str().is_empty(),
                None => true,
            },
            None => match &self.role {
                Some(role) => !role.prompt.as_str().is_empty(),
                None => true,
            },
        }
    }

    /// Whether starting a new conversation would silently lose context:
    /// one is live and still has remaining budget.
    pub fn needs_start_confirmation(&self) -> (r: bool)
        ensures
            r == (self.conversation matches Some(c) && remaining_tokens_of(c.exchanges@)
                > 0),
    {
        match &self.conversation {
            Some(conv) => conv.remaining_tokens() > 0,
            None => false,
        }
    }

    /// Starts a conversation bound to a snapshot of the active role,
    /// replacing any live one. Whether replacement needs confirmation is
    /// the caller's policy, via `needs_start_confirmation`.
    pub fn start_conversation(&mut self)
        ensures
            same_settings(*old(self), *final(self)),
            final(self).role == old(self).role,
            final(self).conversation matches Some(c) && c.role == old(self).role && c.exchanges@
                == Seq::<Exchange>::empty(),
    {
        let role = match &self.role {
            Some(r) => Some(r.clone()),
            None => None,
        };
        self.conversation = Some(Conversation::new(role));
    }

    /// Ends the live conversation, if any.
    pub fn end_conversation(&mut self)
        ensures
            same_settings(*old(self), *final(self)),
            final(self).role == old(self).role,
            final(self).conversation is None,
    {
        self.conversation = None;
    }

    /// Records a completed exchange in the live conversation; a no-op in
    /// session-less mode.
    pub fn save_conversation(&mut self, input: &str, output: &str) -> (r: Result<(), ChatError>)
        ensures
            r is Ok,
            same_settings(*old(self), *final(self)),
            final(self).role == old(self).role,
            match old(self).conversation {
                Some(c) => final(self).conversation matches Some(c2) && c2.role == c.role
                    && c2.exchanges@.len() == c.exchanges@.len() + 1 && c2.exchanges@.drop_last()
                    == c.exchanges@ && c2.exchanges@.last().input@ == input@
                    && c2.exchanges@.last().output@ == output@,
                None => final(self).conversation is None,
            },
    {
        match &mut self.conversation {
            Some(conv) => {
                conv.add_message(input, output);
            },
            None => {},
        }
        Ok(())
    }
}

/// The rendering of one persisted chat entry, as appended to the
/// message log: header with timestamp (and role), then input and
/// output between rulers.
pub open spec fn save_entry_text(
    role: Option<Role>,
    ts: Seq<char>,
    input: Seq<char>,
    output: Seq<char>,
) -> Seq<char> {
    match role {
        None => "# CHAT:["@ + ts + "]\n"@ + input + "\n--------\n"@ + output + "\n--------\n\n"@,
        Some(r) => if r.name@.len() == 0 {
            "# CHAT:["@ + ts + "]\n"@ + r.prompt@ + "\n"@ + input + "\n--------\n"@ + output
                + "\n--------\n\n"@
        } else {
            "# CHAT:["@ + ts + "] ("@ + r.name@ + ")\n"@ + input + "\n--------\n"@ + output
                + "\n--------\n\n"@
        },
    }
}

/// The completion list: one `.role <name>` entry per selectable role,
/// then the fixed settings commands.
pub open spec fn completions_of(roles: Seq<Role>) -> Seq<Seq<char>> {
    Seq::new(roles.len(), |i: int| ".role "@ + roles[i].name@) + seq![
        ".set api_key"@,
        ".set temperature"@,
        ".set save true"@,
        ".set save false"@,
        ".set highlight true"@,
        ".set highlight false"@,
        ".set proxy"@,
        ".set dry_run true"@,
        ".set dry_run false"@,
    ]
}

/// One row of the readable settings summary: the name padded to twenty
/// columns, the value, a line break.
pub open spec fn info_row(padded_name: Seq<char>, value: Seq<char>) -> Seq<char> {
    padded_name + value + "\n"@
}

/// The marker a settings summary appends to a file path that does not
/// exist.
pub open spec fn file_state_text(exists: bool) -> Seq<char> {
    if exists {
        Seq::<char>::empty()
    } else {
        " (missing)"@
    }
}

/// One file row of the readable settings summary: the name padded to
/// twenty columns, the path, the missing marker, a line break.
pub open spec fn info_file_row(padded_name: Seq<char>, path: Seq<char>, exists: bool) -> Seq<
    char,
> {
    padded_name + path + file_state_text(exists) + "\n"@
}

/// The readable settings summary for the resolved file paths and the
/// current settings.
pub open spec fn info_text(
    c: Config,
    config_file: Seq<char>,
    config_file_exists: bool,
    roles_file: Seq<char>,
    roles_file_exists: bool,
    messages_file: Seq<char>,
    messages_file_exists: bool,
) -> Seq<char> {
    info_file_row("config_file         "@, config_file, config_file_exists) + info_file_row(
        "roles_file          "@,
        roles_file,
        roles_file_exists,
    ) + info_file_row("messages_file       "@, messages_file, messages_file_exists) + info_row(
        "api_key             "@,
        c.api_key@,
    ) + info_row(
        "temperature         "@,
        match c.temperature {
            Some(t) => temp_text(t as nat),
            None => "-"@,
        },
    ) + info_row("save                "@, bool_text(c.save)) + info_row(
        "highlight           "@,
        bool_text(c.highlight),
    ) + info_row(
        "proxy               "@,
        match c.proxy {
            Some(p) => p@,
            None => "-"@,
        },
    ) + info_row("conversation_first  "@, bool_text(c.conversation_first)) + info_row(
        "dry_run             "@,
        bool_text(c.dry_run),
    )
}

impl Config {
    /// Applies one `<key> <value>` settings command; `null` unsets the
    /// keys that may be unset. Exactly the addressed setting changes,
    /// and only on success; the session state is never touched.
    pub fn update(&mut self, data: &str) -> (r: Result<(), ChatError>)
        ensures
            final(self).roles == old(self).roles,
            final(self).role == old(self).role,
            final(self).conversation == old(self).conversation,
            final(self).conversation_first == old(self).conversation_first,
            words_of(data@).len() != 2 ==> r == Err::<(), ChatError>(ChatError::InvalidCommand)
                && *final(self) == *old(self),
            words_of(data@).len() == 2 ==> {
                let key = words_of(data@)[0];
                let value = words_of(data@)[1];
                if key == "api_key"@ {
                    if value == "null"@ {
                        r == Err::<(), ChatError>(ChatError::NotAllowed) && *final(self) == *old(self)
                    } else {
                        &&& r is Ok
                        &&& final(self).api_key@ == value
                        &&& final(self).temperature == old(self).temperature
                        &&& final(self).save == old(self).save
                        &&& final(self).highlight == old(self).highlight
                        &&& final(self).proxy == old(self).proxy
                        &&& final(self).dry_run == old(self).dry_run
                    }
                } else if key == "temperature"@ {
                    if value == "null"@ {
                        &&& r is Ok
                        &&& final(self).temperature is None
                        &&& final(self).api_key == old(self).api_key
                        &&& final(self).save == old(self).save
                        &&& final(self).highlight == old(self).highlight
                        &&& final(self).proxy == old(self).proxy
                        &&& final(self).dry_run == old(self).dry_run
                    } else {
                        match temp_of(value) {
                            Some(t) => {
                                &&& r is Ok
                                &&& final(self).temperature == Some(t)
                                &&& final(self).api_key == old(self).api_key
                                &&& final(self).save == old(self).save
                                &&& final(self).highlight == old(self).highlight
                                &&& final(self).proxy == old(self).proxy
                                &&& final(self).dry_run == old(self).dry_run
                            },
                            None => r == Err::<(), ChatError>(ChatError::InvalidValue) && *final(self) == *old(self),
                        }
                    }
                } else if key == "save"@ {
                    match bool_of(value) {
                        Some(b) => {
                            &&& r is Ok
                            &&& final(self).save == b
                            &&& final(self).api_key == old(self).api_key
                            &&& final(self).temperature == old(self).temperature
                            &&& final(self).highlight == old(self).highlight
                            &&& final(self).proxy == old(self).proxy
                            &&& final(self).dry_run == old(self).dry_run
                        },
                        None => r == Err::<(), ChatError>(ChatError::InvalidValue) && *final(self) == *old(self),
                    }
                } else if key == "highlight"@ {
                    match bool_of(value) {
                        Some(b) => {
                            &&& r is Ok
                            &&& final(self).highlight == b
                            &&& final(self).api_key == old(self).api_key
                            &&& final(self).temperature == old(self).temperature
                            &&& final(self).save == old(self).save
                            &&& final(self).proxy == old(self).proxy
                            &&& final(self).dry_run == old(self).dry_run
                        },
                        None => r == Err::<(), ChatError>(ChatError::InvalidValue) && *final(self) == *old(self),
                    }
                } else if key == "proxy"@ {
                    if value == "null"@ {
                        &&& r is Ok
                        &&& final(self).proxy is None
                        &&& final(self).api_key == old(self).api_key
                        &&& final(self).temperature == old(self).temperature
                        &&& final(self).save == old(self).save
                        &&& final(self).highlight == old(self).highlight
                        &&& final(self).dry_run == old(self).dry_run
                    } else {
                        &&& r is Ok
                        &&& final(self).proxy matches Some(p) && p@ == value
                        &&& final(self).api_key == old(self).api_key
                        &&& final(self).temperature == old(self).temperature
                        &&& final(self).save == old(self).save
                        &&& final(self).highlight == old(self).highlight
                        &&& final(self).dry_run == old(self).dry_run
                    }
                } else if key == "dry_run"@ {
                    match bool_of(value) {
                        Some(b) => {
                            &&& r is Ok
                            &&& final(self).dry_run == b
                            &&& final(self).api_key == old(self).api_key
                            &&& final(self).temperature == old(self).temperature
                            &&& final(self).save == old(self).save
                            &&& final(self).highlight == old(self).highlight
                            &&& final(self).proxy == old(self).proxy
                        },
                        None => r == Err::<(), ChatError>(ChatError::InvalidValue) && *final(self) == *old(self),
                    }
                } else {
                    r == Err::<(), ChatError>(ChatError::UnknownKey) && *final(self) == *old(self)
                }
            },
    {
        let words = split_words(data);
        proof {
            assert(words.deep_view().len() == words@.len());
        }
        if words.len() != 2 {
            return Err(ChatError::InvalidCommand);
        }
        proof {
            assert(words.deep_view()[0] == words@[0]@);
            assert(words.deep_view()[1] == words@[1]@);
        }
        let key: &str = words[0].as_str();
        let value: &str = words[1].as_str();
        let unset = str_eq(value, "null");
        if str_eq(key, "api_key") {
            if unset {
                Err(ChatError::NotAllowed)
            } else {
                self.api_key = value.to_owned();
                Ok(())
            }
        } else if str_eq(key, "temperature") {
            if unset {
                self.temperature = None;
                Ok(())
            } else {
                match parse_temperature(value) {
                    Some(t) => {
                        self.temperature = Some(t);
                        Ok(())
                    },
                    None => Err(ChatError::InvalidValue),
                }
            }
        } else if str_eq(key, "save") {
            match parse_bool(value) {
                Some(b) => {
                    self.save = b;
                    Ok(())
                },
                None => Err(ChatError::InvalidValue),
            }
        } else if str_eq(key, "highlight") {
            match parse_bool(value) {
                Some(b) => {
                    self.highlight = b;
                    Ok(())
                },
                None => Err(ChatError::InvalidValue),
            }
        } else if str_eq(key, "proxy") {
            if unset {
                self.proxy = None;
                Ok(())
            } else {
                self.proxy = Some(value.to_owned());
                Ok(())
            }
        } else if str_eq(key, "dry_run") {
            match parse_bool(value) {
                Some(b) => {
                    self.dry_run = b;
                    Ok(())
                },
                None => Err(ChatError::InvalidValue),
            }
        } else {
            Err(ChatError::UnknownKey)
        }
    }

    /// The line-editor completion list for the current role set.
    pub fn repl_completions(&self) -> (r: Vec<String>)
        ensures
            r.deep_view() == completions_of(self.roles@),
    {
        let mut out: Vec<String> = Vec::new();
        let mut i: usize = 0;
        while i < self.roles.len()
            invariant
                i <= self.roles@.len(),
                out.deep_view() =~= Seq::new(i as nat, |j: int| ".role "@ + self.roles@[j].name@),
            decreases self.roles@.len() - i,
        {
            let ghost prev = out.deep_view();
            let entry = String::from_str(".role ").concat(self.roles[i].name.as_str());
            out.push(entry);
            proof {
                assert(out.deep_view() =~= prev.push(entry@));
                assert(prev.push(entry@) =~= Seq::new(
                    (i + 1) as nat,
                    |j: int| ".role "@ + self.roles@[j].name@,
                ));
            }
            i = i + 1;
        }
        out.push(".set api_key".to_owned());
        out.push(".set temperature".to_owned());
        out.push(".set save true".to_owned());
        out.push(".set save false".to_owned());
        out.push(".set highlight true".to_owned());
        out.push(".set highlight false".to_owned());
        out.push(".set proxy".to_owned());
        out.push(".set dry_run true".to_owned());
        out.push(".set dry_run false".to_owned());
        proof {
            assert(out.deep_view() =~= completions_of(self.roles@));
        }
        out
    }

    /// Renders the persisted entry for a completed exchange, or nothing
    /// when saving is off or the output is empty. Writing it to the log
    /// is the caller's side effect, and its failure must not fail the
    /// request.
    pub fn render_save_message(&self, input: &str, output: &str, timestamp: &str) -> (r: Option<
        String,
    >)
        ensures
            r is Some <==> (self.save && output@.len() > 0),
            r matches Some(s) ==> s@ == save_entry_text(self.role, timestamp@, input@, output@),
    {
        if !self.save {
            return None;
        }
        if output.is_empty() {
            return None;
        }
        let tail = String::from_str("\n--------\n").concat(output).concat("\n--------\n\n");
        let r = match &self.role {
            None => String::from_str("# CHAT:[").concat(timestamp).concat("]\n").concat(
                input,
            ).concat(tail.as_str()),
            Some(role) => {
                if role.is_temp() {
                    String::from_str("# CHAT:[").concat(timestamp).concat("]\n").concat(
                        role.prompt.as_str(),
                    ).concat("\n").concat(input).concat(tail.as_str())
                } else {
                    String::from_str("# CHAT:[").concat(timestamp).concat("] (").concat(
                        role.name.as_str(),
                    ).concat(")\n").concat(input).concat(tail.as_str())
                }
            },
        };
        Some(r)
    }

    /// Renders the readable settings summary from the resolved file
    /// paths, their existence, and the current settings.
    #[verifier::rlimit(80)]
    pub fn info(
        &self,
        config_file: &str,
        config_file_exists: bool,
        roles_file: &str,
        roles_file_exists: bool,
        messages_file: &str,
        messages_file_exists: bool,
    ) -> (r: String)
        ensures
            r@ == info_text(
                *self,
                config_file@,
                config_file_exists,
                roles_file@,
                roles_file_exists,
                messages_file@,
                messages_file_exists,
            ),
    {
        let row1 = String::from_str("config_file         ").concat(config_file).concat(
            file_state(config_file_exists),
        ).concat("\n");
        let row2 = String::from_str("roles_file          ").concat(roles_file).concat(
            file_state(roles_file_exists),
        ).concat("\n");
        let row3 = String::from_str("messages_file       ").concat(messages_file).concat(
            file_state(messages_file_exists),
        ).concat("\n");
        let row4 = String::from_str("api_key             ").concat(self.api_key.as_str()).concat(
            "\n",
        );
        let tv = match self.temperature {
            Some(t) => temp_display(t),
            None => "-".to_owned(),
        };
        let row5 = String::from_str("temperature         ").concat(tv.as_str()).concat("\n");
        let row6 = String::from_str("save                ").concat(
            bool_display(self.save).as_str(),
        ).concat("\n");
        let row7 = String::from_str("highlight           ").concat(
            bool_display(self.highlight).as_str(),
        ).concat("\n");
        let pv = match &self.proxy {
            Some(p) => p.clone(),
            None => "-".to_owned(),
        };
        let row8 = String::from_str("proxy               ").concat(pv.as_str()).concat("\n");
        let row9 = String::from_str("conversation_first  ").concat(
            bool_display(self.conversation_first).as_str(),
        ).concat("\n");
        let row10 = String::from_str("dry_run             ").concat(
            bool_display(self.dry_run).as_str(),
        ).concat("\n");
        row1.concat(row2.as_str()).concat(row3.as_str()).concat(row4.as_str()).concat(
            row5.as_str(),
        ).concat(row6.as_str()).concat(row7.as_str()).concat(row8.as_str()).concat(
            row9.as_str(),
        ).concat(row10.as_str())
    }
}

/// The marker appended to a path that does not exist.
fn file_state(exists: bool) -> (r: &'static str)
    ensures
        r@ == file_state_text(exists),
{
    if exists {
        proof {
            reveal_strlit("");
            assert(""@ =~= Seq::<char>::empty());
        }
        ""
    } else {
        " (missing)"
    }
}

/// Renders a role for display.
fn role_details(r: &Role) -> (out: String)
    ensures
        out@ == role_details_text(*r),
{
    let mut out = String::from_str("name: ").concat(r.name.as_str()).concat("\nprompt: ").concat(
        r.prompt.as_str(),
    ).concat("\n");
    match r.temperature {
        Some(t) => {
            out = out.concat("temperature: ").concat(temp_display(t).as_str()).concat("\n");
        },
        None => {},
    }
    out
}

} // verus!
