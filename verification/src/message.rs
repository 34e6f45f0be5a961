//! The message envelope: an action with its creation time, the envelope's
//! JSON form, and the rule by which an old envelope counts as absent.

use crate::clock::{since_epoch, system_now, whole_seconds};
use crate::json::{
    no_members, number_at, object_members, object_new, object_number, object_parse,
    object_put_number, object_put_text, object_render, object_text, parsed_members, text_at,
    Member,
};
use vstd::prelude::*;

verus! {

/// What a message asks the receiving process to do.
#[derive(Debug, Clone, Copy, PartialEq, Eq, Structural)]
pub enum ConfigAction {
    /// Raise and focus the main window of the process with this id.
    Focus { target: u32 },
}

/// An action together with the Unix time, in seconds, at which it was made.
#[derive(Debug, Clone, Copy, PartialEq, Eq, Structural)]
pub struct ConfigMessage {
    pub ctime: u64,
    pub action: ConfigAction,
}

/// Why a text is not a message.
#[derive(Debug, Clone, Copy, PartialEq, Eq, Structural)]
pub enum DecodeError {
    /// The text is not one JSON object.
    Malformed,
    /// The object has no `ctime` member that is an integer of 64 bits.
    MissingTime,
    /// The object has no `action` member that is a string.
    MissingAction,
    /// The `action` member names an action that this version does not know.
    UnknownAction,
    /// The action is `focus`, and no `target` member is an integer of 32 bits.
    BadTarget,
}

/// Why a message could not be written as text. No message is known to meet
/// this: the type stands for the JSON writer's own error.
#[derive(Debug, Clone, Copy, PartialEq, Eq, Structural)]
pub enum EncodeError {
    /// The JSON writer refused the object.
    Rendering,
}

/// The members of a JSON object that a message is read from, each `None`
/// where the object has no member of that name and type.
#[derive(Debug)]
pub struct RawFields {
    pub ctime: Option<u64>,
    pub action: Option<String>,
    pub target: Option<u64>,
}

/// Key of the creation time.
pub open spec fn time_key() -> Seq<char> {
    "ctime"@
}

/// Key of the action's tag.
pub open spec fn action_key() -> Seq<char> {
    "action"@
}

/// Key of a focus request's process id.
pub open spec fn target_key() -> Seq<char> {
    "target"@
}

/// Tag of a focus request.
pub open spec fn focus_tag() -> Seq<char> {
    "focus"@
}

/// The message that three members stand for, or the reason why they stand
/// for none. The first missing or unfit member decides, in the order time,
/// action, target.
pub open spec fn decode_fields(
    ctime: Option<u64>,
    action: Option<Seq<char>>,
    target: Option<u64>,
) -> Result<ConfigMessage, DecodeError> {
    if ctime.is_none() {
        Err(DecodeError::MissingTime)
    } else if action.is_none() {
        Err(DecodeError::MissingAction)
    } else if action.unwrap() != focus_tag() {
        Err(DecodeError::UnknownAction)
    } else if target.is_none() || target.unwrap() > u32::MAX {
        Err(DecodeError::BadTarget)
    } else {
        Ok(
            ConfigMessage {
                ctime: ctime.unwrap(),
                action: ConfigAction::Focus { target: target.unwrap() as u32 },
            },
        )
    }
}

/// What a text decodes to.
pub open spec fn decode(text: Seq<char>) -> Result<ConfigMessage, DecodeError> {
    match parsed_members(text) {
        None => Err(DecodeError::Malformed),
        Some(members) => decode_fields(
            number_at(members, time_key()),
            text_at(members, action_key()),
            number_at(members, target_key()),
        ),
    }
}

/// The members of a message's JSON object: the creation time, the action's
/// tag, and what the action itself holds.
pub open spec fn encoded_members(message: ConfigMessage) -> Map<Seq<char>, Member> {
    match message.action {
        ConfigAction::Focus { target } => no_members().insert(
            time_key(),
            Member::Number(message.ctime),
        ).insert(action_key(), Member::Text(focus_tag())).insert(
            target_key(),
            Member::Number(target as u64),
        ),
    }
}

/// Whether a text is a JSON form of the message: an object with exactly the
/// message's members.
pub open spec fn is_encoding(text: Seq<char>, message: ConfigMessage) -> bool {
    parsed_members(text) == Some(encoded_members(message))
}

/// The three keys differ from one another.
pub proof fn keys_differ()
    ensures
        time_key() != action_key(),
        time_key() != target_key(),
        action_key() != target_key(),
{
    reveal_strlit("ctime");
    reveal_strlit("action");
    reveal_strlit("target");
    assert(time_key().len() == 5);
    assert(action_key().len() == 6);
    assert(target_key().len() == 6);
    assert(action_key()[0] == 'a');
    assert(target_key()[0] == 't');
}

/// Decoding undoes encoding: every JSON form of a message decodes to that
/// message.
pub proof fn decode_inverts_encode(message: ConfigMessage, text: Seq<char>)
    requires
        is_encoding(text, message),
    ensures
        decode(text) == Ok::<ConfigMessage, DecodeError>(message),
{
    keys_differ();
    let members = encoded_members(message);
    match message.action {
        ConfigAction::Focus { target } => {
            assert(number_at(members, time_key()) == Some(message.ctime));
            assert(number_at(members, target_key()) == Some(target as u64));
            assert(text_at(members, action_key()) == Some(focus_tag()));
            assert((target as u64) as u32 == target);
        },
    }
}

impl ConfigAction {
    /// A request to focus the window of process `pid`.
    pub fn focus(pid: u32) -> (action: ConfigAction)
        ensures
            action == (ConfigAction::Focus { target: pid }),
    {
        ConfigAction::Focus { target: pid }
    }
}

impl RawFields {
    /// The action member as a sequence of characters.
    pub open spec fn action_text(self) -> Option<Seq<char>> {
        match self.action {
            Some(tag) => Some(tag@),
            None => None,
        }
    }
}

/// The message that survives the age check at time `now`: none where a limit
/// is set and the message is older than it.
pub open spec fn fresh_at(message: ConfigMessage, max_age_secs: Option<u64>, now: u64) -> Option<
    ConfigMessage,
> {
    if max_age_secs.is_some() && !message.valid_at(now, max_age_secs.unwrap()) {
        None
    } else {
        Some(message)
    }
}

/// The message that a reader at time `now` takes from a file's content: none
/// where the content is no message, or where the message is stale.
pub open spec fn validated(text: Seq<char>, max_age_secs: Option<u64>, now: u64) -> Option<
    ConfigMessage,
> {
    match decode(text) {
        Ok(message) => fresh_at(message, max_age_secs, now),
        Err(_) => None,
    }
}

impl ConfigMessage {
    /// The age of the message at time `now`, in seconds: 0 where the clock
    /// stands before the creation time.
    pub open spec fn age_at(self, now: u64) -> u64 {
        if now >= self.ctime {
            (now - self.ctime) as u64
        } else {
            0
        }
    }

    /// Whether the message is at most `max_age_secs` old at time `now`.
    pub open spec fn valid_at(self, now: u64, max_age_secs: u64) -> bool {
        self.age_at(now) <= max_age_secs
    }

    /// The current Unix time in seconds, and 0 where the clock stands before
    /// the epoch. Two calls may differ, so nothing is stated of the result.
    pub fn current_timestamp() -> u64 {
        let reading = system_now();
        let elapsed_secs = match since_epoch(&reading) {
            Some(elapsed) => Some(whole_seconds(&elapsed)),
            None => None,
        };
        Self::timestamp_from(elapsed_secs)
    }

    /// The timestamp that a clock reading stands for: the whole seconds from
    /// the epoch to the reading, and 0 for a reading before the epoch, which
    /// comes as `None`.
    pub open spec fn timestamp_of(elapsed_secs: Option<u64>) -> u64 {
        match elapsed_secs {
            Some(seconds) => seconds,
            None => 0,
        }
    }

    /// The timestamp that a clock reading stands for.
    pub fn timestamp_from(elapsed_secs: Option<u64>) -> (timestamp: u64)
        ensures
            timestamp == Self::timestamp_of(elapsed_secs),
    {
        match elapsed_secs {
            Some(seconds) => seconds,
            None => 0,
        }
    }

    /// A message made now. Its creation time is whatever the clock says.
    pub fn new(action: ConfigAction) -> (message: ConfigMessage)
        ensures
            message.action == action,
    {
        let ctime = Self::current_timestamp();
        ConfigMessage { ctime, action }
    }

    /// A message with a given creation time.
    pub fn with_timestamp(action: ConfigAction, ctime: u64) -> (message: ConfigMessage)
        ensures
            message == (ConfigMessage { ctime, action }),
    {
        ConfigMessage { ctime, action }
    }

    /// The message's age at time `now`.
    pub fn age_secs_at(&self, now: u64) -> (age: u64)
        ensures
            age == self.age_at(now),
    {
        now.saturating_sub(self.ctime)
    }

    /// Whether the message is still valid at time `now`.
    pub fn is_valid_at(&self, max_age_secs: u64, now: u64) -> (valid: bool)
        ensures
            valid == self.valid_at(now, max_age_secs),
    {
        self.age_secs_at(now) <= max_age_secs
    }

    /// The message's age by the system clock: its age at some time.
    pub fn age_secs(&self) -> (age: u64)
        ensures
            exists|now: u64| age == #[trigger] self.age_at(now),
    {
        let now = Self::current_timestamp();
        let age = self.age_secs_at(now);
        assert(age == self.age_at(now));
        age
    }

    /// Whether the message is still valid by the system clock: its validity
    /// at some time.
    pub fn is_valid(&self, max_age_secs: u64) -> (valid: bool)
        ensures
            exists|now: u64| valid == #[trigger] self.valid_at(now, max_age_secs),
    {
        let now = Self::current_timestamp();
        let valid = self.is_valid_at(max_age_secs, now);
        assert(valid == self.valid_at(now, max_age_secs));
        valid
    }

    /// The message that the members of a JSON object stand for.
    pub fn from_fields(fields: &RawFields) -> (decoded: Result<ConfigMessage, DecodeError>)
        ensures
            decoded == decode_fields(fields.ctime, fields.action_text(), fields.target),
    {
        let ctime = match fields.ctime {
            Some(ctime) => ctime,
            None => return Err(DecodeError::MissingTime),
        };
        let tag = match &fields.action {
            Some(tag) => tag,
            None => return Err(DecodeError::MissingAction),
        };
        if *tag != "focus".to_owned() {
            return Err(DecodeError::UnknownAction);
        }
        match fields.target {
            Some(target) if target <= 0xFFFF_FFFFu64 => Ok(
                ConfigMessage { ctime, action: ConfigAction::Focus { target: target as u32 } },
            ),
            _ => Err(DecodeError::BadTarget),
        }
    }

    /// Reads a message from its JSON text.
    pub fn from_json(json: &str) -> (decoded: Result<ConfigMessage, DecodeError>)
        ensures
            decoded == decode(json@),
            json@.len() == 0 ==> decoded == Err::<ConfigMessage, DecodeError>(
                DecodeError::Malformed,
            ),
    {
        match object_parse(json) {
            Err(_) => Err(DecodeError::Malformed),
            Ok(object) => {
                let fields = RawFields {
                    ctime: object_number(&object, "ctime"),
                    action: object_text(&object, "action"),
                    target: object_number(&object, "target"),
                };
                Self::from_fields(&fields)
            },
        }
    }

    /// Writes the message as JSON text: an object that holds the creation
    /// time, the action's tag and the action's own members, and nothing else.
    /// Every message has such a text.
    pub fn to_json(&self) -> (encoded: Result<String, EncodeError>)
        ensures
            encoded.is_ok(),
            encoded matches Ok(text) ==> is_encoding(text@, *self) && decode(text@) == Ok::<
                ConfigMessage,
                DecodeError,
            >(*self),
    {
        let mut object = object_new();
        object_put_number(&mut object, "ctime", self.ctime);
        match self.action {
            ConfigAction::Focus { target } => {
                object_put_text(&mut object, "action", "focus");
                object_put_number(&mut object, "target", target as u64);
            },
        }
        proof {
            assert(object_members(object) =~= encoded_members(*self));
        }
        match object_render(&object) {
            Ok(text) => {
                proof {
                    decode_inverts_encode(*self, text@);
                }
                Ok(text)
            },
            Err(_) => Err(EncodeError::Rendering),
        }
    }

    /// The message that survives the age check at time `now`.
    pub fn fresh(self, max_age_secs: Option<u64>, now: u64) -> (kept: Option<ConfigMessage>)
        ensures
            kept == fresh_at(self, max_age_secs, now),
    {
        match max_age_secs {
            Some(max_age) if !self.is_valid_at(max_age, now) => None,
            _ => Some(self),
        }
    }

    /// Decodes a file's content and checks its age at time `now`. A content
    /// that is no message and a stale message both give `None`.
    pub fn read_and_validate_at(content: &str, max_age_secs: Option<u64>, now: u64) -> (message:
        Option<ConfigMessage>)
        ensures
            message == validated(content@, max_age_secs, now),
            content@.len() == 0 ==> message.is_none(),
    {
        match Self::from_json(content) {
            Ok(decoded) => decoded.fresh(max_age_secs, now),
            Err(_) => None,
        }
    }

    /// Decodes a file's content and checks its age by the system clock.
    pub fn read_and_validate(content: &str, max_age_secs: Option<u64>) -> (message: Option<
        ConfigMessage,
    >)
        ensures
            exists|now: u64| message == #[trigger] validated(content@, max_age_secs, now),
            content@.len() == 0 ==> message.is_none(),
    {
        let now = Self::current_timestamp();
        let message = Self::read_and_validate_at(content, max_age_secs, now);
        assert(message == validated(content@, max_age_secs, now));
        message
    }
}

/// A message that is one second older than the limit is not read.
pub proof fn stale_message_is_dropped(
    text: Seq<char>,
    message: ConfigMessage,
    max_age_secs: u64,
    now: u64,
)
    requires
        decode(text) == Ok::<ConfigMessage, DecodeError>(message),
        message.ctime + max_age_secs + 1 == now,
    ensures
        !message.valid_at(now, max_age_secs),
        validated(text, Some(max_age_secs), now).is_none(),
{
}

/// A message is read at the second of its creation, whatever the limit.
pub proof fn new_message_is_kept(text: Seq<char>, message: ConfigMessage, max_age_secs: Option<u64>)
    requires
        decode(text) == Ok::<ConfigMessage, DecodeError>(message),
    ensures
        message.age_at(message.ctime) == 0,
        validated(text, max_age_secs, message.ctime) == Some(message),
{
}

} // verus!
