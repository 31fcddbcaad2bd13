//! The turn controller: the state machine at the heart of the assistant.
//!
//! One turn flows through five states: await the user's text, think (call
//! the LLM and parse its reply), await the human's confirmation, execute,
//! and idle once the session is over. The controller holds the conversation
//! and decides every transition; what it cannot do itself — the network
//! round-trip, the child process, the terminal — it hands out as an effect
//! for the unverified runner to perform, and takes the observation back as
//! the next event.
//!
//! A reply that yields no action is retried against the same context, one
//! visible retry notice per failure, under an explicit attempt bound: when
//! the bound runs out the controller gives the oracle up instead of looping
//! forever.

use vstd::prelude::*;

use crate::action::{
    action_matches, any_action_shape, display_prompt_spec, llm_action_type_prompt_template_spec,
    LLMActionType,
};
use crate::context::{appended, ConversationContext, Message, Role};
use crate::errors::{nonzero_status_text, spawn_failed_text, ExecutionError};
use crate::executor::{concat_chunks, conclude, ProcessOutcome};
use crate::gateway::{extract_payload, payload_of, LlmOutcome};
use crate::json::json_doc_of;

verus! {

/// Where the controller stands within a turn.
#[derive(Debug, Clone, Copy, PartialEq, Eq, Structural)]
pub enum TurnState {
    /// Waiting for the user's instruction (or follow-up).
    AwaitingUserInput,
    /// An LLM call is out; its reply is awaited.
    LLMThinking,
    /// An action is parsed and described; the human's one line is awaited.
    AwaitingConfirmation,
    /// A command is running; the process outcome is awaited.
    Executing,
    /// The session is over; no further LLM call will be made.
    Idle,
}

/// What the runner must do next on the controller's behalf.
#[derive(Debug)]
pub enum TurnEffect {
    /// Read the next instruction from the user.
    PromptUser,
    /// Send the current context snapshot to the LLM.
    CallLlm,
    /// Show one "wrong reply, retrying" notice, then send the same context
    /// snapshot to the LLM again.
    RetryLlm,
    /// The LLM kept answering unusably and the attempt bound ran out: report
    /// it and stop.
    OracleUnreliable,
    /// Show this description and read the human's one line.
    Confirm { prompt: String },
    /// Run this command in the shell and report the process outcome.
    RunCommand { command: String },
    /// The command succeeded: offer to save it as a named script, then go on
    /// as the controller's state says — prompt for the next instruction when
    /// it awaits input, end the session when it is idle.
    OfferSave { command: String },
    /// End the session.
    Stop,
}

/// The token that ends the session at an input prompt.
pub open spec fn exit_token() -> Seq<char> {
    "e"@
}

/// The token that confirms execution of a proposed command.
pub open spec fn confirm_token() -> Seq<char> {
    "y"@
}

/// The state machine of one session: context, pending action, retry budget.
#[derive(Debug)]
pub struct TurnController {
    state: TurnState,
    interactive: bool,
    context: ConversationContext,
    pending: Option<LLMActionType>,
    max_attempts: u32,
    attempts_left: u32,
}

impl TurnController {
    pub closed spec fn spec_state(self) -> TurnState {
        self.state
    }

    pub closed spec fn spec_interactive(self) -> bool {
        self.interactive
    }

    pub closed spec fn spec_context(self) -> Seq<Message> {
        self.context@
    }

    pub closed spec fn spec_pending(self) -> Option<LLMActionType> {
        self.pending
    }

    pub closed spec fn spec_max_attempts(self) -> u32 {
        self.max_attempts
    }

    pub closed spec fn spec_attempts_left(self) -> u32 {
        self.attempts_left
    }

    /// The controller's invariant: the log opens with the system preamble and
    /// never loses it; a confirmation always has an action to confirm; an
    /// execution always has a command to run.
    pub open spec fn wf(self) -> bool {
        &&& self.spec_context().len() >= 1
        &&& self.spec_context()[0].role is System
        &&& self.spec_max_attempts() >= 1
        &&& (self.spec_state() is AwaitingConfirmation ==> self.spec_pending() is Some)
        &&& (self.spec_state() is Executing ==> (self.spec_pending() matches Some(a) && a is Execute))
    }

    /// The session's configuration never changes underway.
    pub open spec fn same_session(self, other: TurnController) -> bool {
        &&& self.spec_interactive() == other.spec_interactive()
        &&& self.spec_max_attempts() == other.spec_max_attempts()
    }

    /// Opens a session: the context holds the system preamble and the
    /// controller awaits the user's first instruction.
    pub fn new(preamble: String, interactive: bool, max_attempts: u32) -> (r: Self)
        requires
            max_attempts >= 1,
        ensures
            r.wf(),
            r.spec_state() is AwaitingUserInput,
            r.spec_context().len() == 1,
            r.spec_context()[0].role is System,
            r.spec_context()[0].content@ == preamble@,
            r.spec_pending() is None,
            r.spec_interactive() == interactive,
            r.spec_max_attempts() == max_attempts,
    {
        TurnController {
            state: TurnState::AwaitingUserInput,
            interactive,
            context: ConversationContext::with_preamble(preamble),
            pending: None,
            max_attempts,
            attempts_left: 0,
        }
    }

    /// Where the controller stands.
    pub fn state(&self) -> (r: TurnState)
        ensures
            r == self.spec_state(),
    {
        self.state
    }

    /// The conversation as it stands; its snapshot is what a `CallLlm` or
    /// `RetryLlm` effect sends.
    pub fn context(&self) -> (r: &ConversationContext)
        ensures
            r@ == self.spec_context(),
    {
        &self.context
    }

    /// The user speaks at the input prompt. The exit token ends the session;
    /// anything else becomes the next user message and goes to the LLM.
    pub fn on_user_input(&mut self, text: String) -> (eff: TurnEffect)
        requires
            old(self).wf(),
            old(self).spec_state() is AwaitingUserInput,
        ensures
            final(self).wf(),
            old(self).same_session(*final(self)),
            final(self).spec_pending() == old(self).spec_pending(),
            if text@ == exit_token() {
                &&& final(self).spec_state() is Idle
                &&& final(self).spec_context() == old(self).spec_context()
                &&& eff is Stop
            } else {
                &&& final(self).spec_state() is LLMThinking
                &&& appended(old(self).spec_context(), final(self).spec_context(), Role::User, text@)
                &&& final(self).spec_attempts_left() == old(self).spec_max_attempts() - 1
                &&& eff is CallLlm
            },
    {
        if token_eq(&text, "e") {
            self.state = TurnState::Idle;
            TurnEffect::Stop
        } else {
            proof {
                lemma_appended_push(self.context@, Role::User, text);
            }
            match self.context.add(Role::User, text) {
                Ok(()) => {},
                Err(_) => {
                    proof {
                        assert(false);
                    }
                },
            }
            self.state = TurnState::LLMThinking;
            self.attempts_left = self.max_attempts - 1;
            TurnEffect::CallLlm
        }
    }

    /// The LLM's reply (or its failure) comes back.
    ///
    /// A reply whose payload parses into an action is echoed into the context
    /// as the assistant's message and goes to the human for confirmation.
    /// Anything else — a transport failure, an empty answer, no JSON in the
    /// text, JSON matching no schema — leaves the context untouched and is
    /// retried while the attempt budget lasts; when it runs out the oracle is
    /// given up and the session ends.
    pub fn on_llm_reply(&mut self, outcome: LlmOutcome) -> (eff: TurnEffect)
        requires
            old(self).wf(),
            old(self).spec_state() is LLMThinking,
        ensures
            final(self).wf(),
            old(self).same_session(*final(self)),
            if reply_parses(outcome) {
                &&& final(self).spec_state() is AwaitingConfirmation
                &&& (final(self).spec_pending() matches Some(a) && action_matches(
                    reply_document(outcome),
                    a,
                ) && appended(
                    old(self).spec_context(),
                    final(self).spec_context(),
                    Role::Assistant,
                    display_prompt_spec(a),
                ) && confirm_effect(eff, display_prompt_spec(a)))
            } else {
                &&& final(self).spec_context() == old(self).spec_context()
                &&& final(self).spec_pending() == old(self).spec_pending()
                &&& if old(self).spec_attempts_left() > 0 {
                    &&& final(self).spec_state() is LLMThinking
                    &&& final(self).spec_attempts_left() == old(self).spec_attempts_left() - 1
                    &&& eff is RetryLlm
                } else {
                    &&& final(self).spec_state() is Idle
                    &&& eff is OracleUnreliable
                }
            },
    {
        let parsed: Option<LLMActionType> = match extract_payload(&outcome) {
            Ok(p) => match LLMActionType::parse(p.as_str()) {
                Ok(a) => Some(a),
                Err(_) => None,
            },
            Err(_) => None,
        };
        match parsed {
            Some(action) => {
                let prompt = action.fetch_display_prompt();
                let echo = prompt.clone();
                proof {
                    lemma_appended_push(self.context@, Role::Assistant, echo);
                }
                match self.context.add(Role::Assistant, echo) {
                    Ok(()) => {},
                    Err(_) => {
                        proof {
                            assert(false);
                        }
                    },
                }
                self.pending = Some(action);
                self.state = TurnState::AwaitingConfirmation;
                TurnEffect::Confirm { prompt }
            },
            None => {
                if self.attempts_left > 0 {
                    self.attempts_left = self.attempts_left - 1;
                    TurnEffect::RetryLlm
                } else {
                    self.state = TurnState::Idle;
                    TurnEffect::OracleUnreliable
                }
            },
        }
    }

    /// The human answers the description of the pending action.
    ///
    /// Exactly the confirm token on an `Execute` action runs its command.
    /// Every other line — an answer to a request for information, an
    /// acknowledgment of install instructions, or a refinement hint for a
    /// proposed command — becomes the next user message and goes back to the
    /// LLM.
    pub fn on_confirmation(&mut self, input: String) -> (eff: TurnEffect)
        requires
            old(self).wf(),
            old(self).spec_state() is AwaitingConfirmation,
        ensures
            final(self).wf(),
            old(self).same_session(*final(self)),
            if confirmed_execute(old(self).spec_pending(), input@) {
                &&& final(self).spec_state() is Executing
                &&& final(self).spec_pending() == old(self).spec_pending()
                &&& final(self).spec_context() == old(self).spec_context()
                &&& run_effect(eff, pending_command(old(self).spec_pending()))
            } else {
                &&& final(self).spec_state() is LLMThinking
                &&& final(self).spec_pending() is None
                &&& appended(old(self).spec_context(), final(self).spec_context(), Role::User, input@)
                &&& final(self).spec_attempts_left() == old(self).spec_max_attempts() - 1
                &&& eff is CallLlm
            },
    {
        let run: bool = match &self.pending {
            Some(LLMActionType::Execute(_)) => token_eq(&input, "y"),
            _ => false,
        };
        if run {
            let command: String = match &self.pending {
                Some(LLMActionType::Execute(e)) => e.get_commands().to_owned(),
                _ => {
                    proof {
                        assert(false);
                    }
                    String::new()
                },
            };
            self.state = TurnState::Executing;
            TurnEffect::RunCommand { command }
        } else {
            proof {
                lemma_appended_push(self.context@, Role::User, input);
            }
            match self.context.add(Role::User, input) {
                Ok(()) => {},
                Err(_) => {
                    proof {
                        assert(false);
                    }
                },
            }
            self.pending = None;
            self.state = TurnState::LLMThinking;
            self.attempts_left = self.max_attempts - 1;
            TurnEffect::CallLlm
        }
    }

    /// The process outcome comes back from the runner.
    ///
    /// On success the captured output joins the context as a system message,
    /// the runner is told to offer saving the command, and the session either
    /// awaits the next instruction (interactive) or is over (single
    /// instruction). On failure the error text — output included — joins the
    /// context as a system message and goes straight back to the LLM, so the
    /// model can correct itself.
    pub fn on_execution_finished(&mut self, outcome: ProcessOutcome) -> (eff: TurnEffect)
        requires
            old(self).wf(),
            old(self).spec_state() is Executing,
        ensures
            final(self).wf(),
            old(self).same_session(*final(self)),
            final(self).spec_pending() is None,
            match outcome {
                ProcessOutcome::Completed { chunks, exit_ok: true } => {
                    &&& appended(
                        old(self).spec_context(),
                        final(self).spec_context(),
                        Role::System,
                        concat_chunks(chunks@),
                    )
                    &&& (old(self).spec_pending() matches Some(a) && a is Execute)
                    &&& offer_save_effect(eff, pending_command(old(self).spec_pending()))
                    &&& final(self).spec_state() == (if old(self).spec_interactive() {
                        TurnState::AwaitingUserInput
                    } else {
                        TurnState::Idle
                    })
                },
                ProcessOutcome::Completed { chunks, exit_ok: false } => {
                    &&& appended(
                        old(self).spec_context(),
                        final(self).spec_context(),
                        Role::System,
                        nonzero_status_text(concat_chunks(chunks@)),
                    )
                    &&& final(self).spec_state() is LLMThinking
                    &&& final(self).spec_attempts_left() == old(self).spec_max_attempts() - 1
                    &&& eff is CallLlm
                },
                ProcessOutcome::SpawnFailure { details } => {
                    &&& appended(
                        old(self).spec_context(),
                        final(self).spec_context(),
                        Role::System,
                        spawn_failed_text(details@),
                    )
                    &&& final(self).spec_state() is LLMThinking
                    &&& final(self).spec_attempts_left() == old(self).spec_max_attempts() - 1
                    &&& eff is CallLlm
                },
            },
    {
        let command: String = match &self.pending {
            Some(LLMActionType::Execute(e)) => e.get_commands().to_owned(),
            _ => {
                proof {
                    assert(false);
                }
                String::new()
            },
        };
        self.pending = None;
        match conclude(outcome) {
            Ok(res) => {
                proof {
                    lemma_appended_push(self.context@, Role::System, res.captured_output);
                }
                match self.context.add(Role::System, res.captured_output) {
                    Ok(()) => {},
                    Err(_) => {
                        proof {
                            assert(false);
                        }
                    },
                }
                self.state = if self.interactive {
                    TurnState::AwaitingUserInput
                } else {
                    TurnState::Idle
                };
                TurnEffect::OfferSave { command }
            },
            Err(e) => {
                let msg = e.message();
                proof {
                    lemma_appended_push(self.context@, Role::System, msg);
                }
                match self.context.add(Role::System, msg) {
                    Ok(()) => {},
                    Err(_) => {
                        proof {
                            assert(false);
                        }
                    },
                }
                self.state = TurnState::LLMThinking;
                self.attempts_left = self.max_attempts - 1;
                TurnEffect::CallLlm
            },
        }
    }
}

/// The system preamble that opens every session: the standing instruction,
/// the environment facts, the action templates, and the closing notes.
pub open spec fn session_preamble_spec(contextual_information: Seq<char>) -> Seq<char> {
    "Please translate the following command sent by the user to an executable sh command/script in a json.\nIf you would like to have additional information to send or receive from the user, or perform other actions, please refer to the templates below.\n"@
        + contextual_information + "This is your template, output in json: "@
        + llm_action_type_prompt_template_spec() + ":\n"@ + "\nAdditional instructions:"@
        + "- The `interpreter` now only supports sh. "@
}

/// Builds the system preamble a session opens with.
pub fn session_preamble(contextual_information: &str) -> (r: String)
    ensures
        r@ == session_preamble_spec(contextual_information@),
{
    let mut out: String =
        "Please translate the following command sent by the user to an executable sh command/script in a json.\nIf you would like to have additional information to send or receive from the user, or perform other actions, please refer to the templates below.\n".to_owned();
    out.append(contextual_information);
    out.append("This is your template, output in json: ");
    let template = LLMActionType::get_llm_action_type_prompt_template();
    out.append(template.as_str());
    out.append(":\n");
    out.append("\nAdditional instructions:");
    out.append("- The `interpreter` now only supports sh. ");
    proof {
        assert(out@ =~= session_preamble_spec(contextual_information@));
    }
    out
}

/// The effect asks the human to confirm this description.
pub open spec fn confirm_effect(eff: TurnEffect, prompt: Seq<char>) -> bool {
    eff matches TurnEffect::Confirm { prompt: p } && p@ == prompt
}

/// The effect runs this command.
pub open spec fn run_effect(eff: TurnEffect, command: Seq<char>) -> bool {
    eff matches TurnEffect::RunCommand { command: c } && c@ == command
}

/// The effect offers to save this command as a named script.
pub open spec fn offer_save_effect(eff: TurnEffect, command: Seq<char>) -> bool {
    eff matches TurnEffect::OfferSave { command: c } && c@ == command
}

/// The pending action is a command and the human typed exactly the confirm
/// token.
pub open spec fn confirmed_execute(pending: Option<LLMActionType>, input: Seq<char>) -> bool {
    &&& pending matches Some(a) && a is Execute
    &&& input == confirm_token()
}

/// The command of a pending `Execute` action.
pub open spec fn pending_command(pending: Option<LLMActionType>) -> Seq<char> {
    match pending {
        Some(LLMActionType::Execute(e)) => e.spec_command(),
        _ => Seq::empty(),
    }
}

/// The LLM's reply yields an action: its payload is there, is valid JSON,
/// and matches one of the three schemas.
pub open spec fn reply_parses(outcome: LlmOutcome) -> bool {
    &&& payload_of(outcome) is Some
    &&& json_doc_of(payload_of(outcome).unwrap()) is Some
    &&& any_action_shape(json_doc_of(payload_of(outcome).unwrap()).unwrap())
}

/// The document a parsing reply carries.
pub open spec fn reply_document(outcome: LlmOutcome) -> crate::json::JsonValue {
    json_doc_of(payload_of(outcome).unwrap()).unwrap()
}

proof fn lemma_appended_push(ctx: Seq<Message>, role: Role, content: String)
    ensures
        appended(ctx, ctx.push(Message { role, content }), role, content@),
{
    assert(ctx.push(Message { role, content }).subrange(0, ctx.len() as int) =~= ctx);
}

fn token_eq(s: &String, token: &str) -> (r: bool)
    ensures
        r == (s@ == token@),
{
    let t: String = token.to_owned();
    *s == t
}

} // verus!
