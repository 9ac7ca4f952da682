//! The command registry: which names the interface can invoke, with which
//! arguments, and the handler that each one reaches.

use vstd::prelude::*;
use crate::echo::{echo, greeting};
use crate::invocation::{lemma_settled_is_final, EventView, Invocation, InvocationView, WindowOp};
use crate::outcome::{Reply, ReplyView};
use crate::window::{close_window, minimize_window, window_call, MAIN_WINDOW_LABEL};

verus! {

/// The name under which the echo command is registered.
pub const ECHO: &'static str = "echo";

/// The name under which minimizing the main window is registered.
pub const MINIMIZE_WINDOW: &'static str = "minimize_window";

/// The name under which closing the main window is registered.
pub const CLOSE_WINDOW: &'static str = "close_window";

/// One argument of a request.
#[derive(Debug, PartialEq, Eq)]
pub enum Value {
    Text(String),
    Integer(i64),
    Flag(bool),
}

/// A [`Value`] as contracts see it.
pub enum ValueView {
    Text(Seq<char>),
    Integer(int),
    Flag(bool),
}

impl View for Value {
    type V = ValueView;

    open spec fn view(&self) -> ValueView {
        match self {
            Value::Text(text) => ValueView::Text(text@),
            Value::Integer(number) => ValueView::Integer(*number as int),
            Value::Flag(flag) => ValueView::Flag(*flag),
        }
    }
}

/// A request as it comes from the interface: the name of a command and its
/// arguments in order. It is made for one invocation and used up by routing.
#[derive(Debug, PartialEq, Eq)]
pub struct CommandRequest {
    pub name: String,
    pub arguments: Vec<Value>,
}

/// A [`CommandRequest`] as contracts see it.
pub struct CommandRequestView {
    pub name: Seq<char>,
    pub arguments: Seq<ValueView>,
}

impl View for CommandRequest {
    type V = CommandRequestView;

    open spec fn view(&self) -> CommandRequestView {
        CommandRequestView {
            name: self.name@,
            arguments: self.arguments@.map_values(|value: Value| value@),
        }
    }
}

/// A request that has been routed: one of the registered commands, with the
/// arguments that it takes.
#[derive(Debug, PartialEq, Eq)]
pub enum Command {
    Echo { text: String },
    MinimizeWindow,
    CloseWindow,
}

/// A [`Command`] as contracts see it.
pub enum CommandView {
    Echo { text: Seq<char> },
    MinimizeWindow,
    CloseWindow,
}

impl View for Command {
    type V = CommandView;

    open spec fn view(&self) -> CommandView {
        match self {
            Command::Echo { text } => CommandView::Echo { text: text@ },
            Command::MinimizeWindow => CommandView::MinimizeWindow,
            Command::CloseWindow => CommandView::CloseWindow,
        }
    }
}

impl CommandView {
    /// The request that invokes this command: its registered name, and its
    /// arguments in order.
    pub open spec fn request(self) -> CommandRequestView {
        match self {
            CommandView::Echo { text } => CommandRequestView {
                name: ECHO@,
                arguments: seq![ValueView::Text(text)],
            },
            CommandView::MinimizeWindow => CommandRequestView {
                name: MINIMIZE_WINDOW@,
                arguments: Seq::empty(),
            },
            CommandView::CloseWindow => CommandRequestView {
                name: CLOSE_WINDOW@,
                arguments: Seq::empty(),
            },
        }
    }
}

/// The command that a request reaches, if any. Echo takes one text; the
/// window commands take nothing. A name that is not registered, or
/// arguments that a registered command does not take, reach no command.
pub open spec fn route_of(request: CommandRequestView) -> Option<CommandView> {
    if request.name == ECHO@ {
        if request.arguments.len() == 1 && request.arguments[0] is Text {
            Some(CommandView::Echo { text: request.arguments[0]->Text_0 })
        } else {
            None
        }
    } else if request.name == MINIMIZE_WINDOW@ {
        if request.arguments.len() == 0 {
            Some(CommandView::MinimizeWindow)
        } else {
            None
        }
    } else if request.name == CLOSE_WINDOW@ {
        if request.arguments.len() == 0 {
            Some(CommandView::CloseWindow)
        } else {
            None
        }
    } else {
        None
    }
}

/// Where a command stands once its handler has been called. Echo has its
/// reply at once; a window command stands at the lookup of the main window.
pub open spec fn dispatch_of(command: CommandView) -> InvocationView {
    match command {
        CommandView::Echo { text } => InvocationView::Settled {
            result: Ok(ReplyView::Text(greeting(text))),
        },
        CommandView::MinimizeWindow => window_call(WindowOp::Minimize, MAIN_WINDOW_LABEL@),
        CommandView::CloseWindow => window_call(WindowOp::Close, MAIN_WINDOW_LABEL@),
    }
}

/// Routes a request to the command that is registered under its name.
/// `None` says that the request reaches no command: how that is told to the
/// interface is the transport's business.
pub fn route(request: CommandRequest) -> (command: Option<Command>)
    ensures
        match route_of(request@) {
            Some(routed) => command is Some && command->0@ == routed,
            None => command is None,
        },
{
    let CommandRequest { name, arguments } = request;
    let mut arguments = arguments;
    if name == ECHO.to_string() {
        if arguments.len() != 1 {
            return None;
        }
        match arguments.pop() {
            Some(Value::Text(text)) => Some(Command::Echo { text }),
            _ => None,
        }
    } else if name == MINIMIZE_WINDOW.to_string() {
        if arguments.len() == 0 {
            Some(Command::MinimizeWindow)
        } else {
            None
        }
    } else if name == CLOSE_WINDOW.to_string() {
        if arguments.len() == 0 {
            Some(Command::CloseWindow)
        } else {
            None
        }
    } else {
        None
    }
}

/// Calls the one handler of a command.
pub fn dispatch(command: Command) -> (invocation: Invocation)
    ensures
        invocation@ == dispatch_of(command@),
{
    match command {
        Command::Echo { text } => Invocation::Settled {
            result: Ok(Reply::Text(echo(text.as_str()))),
        },
        Command::MinimizeWindow => minimize_window(),
        Command::CloseWindow => close_window(),
    }
}

/// A request reaches a command if and only if it is the request that
/// invokes that command. So each command is reached under its own name, no
/// two names reach the same command, and no request reaches two.
pub proof fn lemma_route_matches_registration(request: CommandRequestView, command: CommandView)
    ensures
        route_of(request) == Some(command) <==> request == command.request(),
{
    reveal_strlit("echo");
    reveal_strlit("minimize_window");
    reveal_strlit("close_window");
    assert(ECHO@.len() == 4 && MINIMIZE_WINDOW@.len() == 15 && CLOSE_WINDOW@.len() == 12);
    if route_of(request) == Some(command) {
        assert(request.arguments =~= command.request().arguments);
    }
}

/// Echo needs nothing from the host: its invocation has settled with the
/// greeting when dispatch returns, and nothing that a host reports changes
/// it.
pub proof fn lemma_echo_settles_at_dispatch(text: Seq<char>, events: Seq<EventView>)
    ensures
        dispatch_of(CommandView::Echo { text }).run(events) == (InvocationView::Settled {
            result: Ok(ReplyView::Text(greeting(text))),
        }),
{
    lemma_settled_is_final(dispatch_of(CommandView::Echo { text }), events);
}

/// Every command runs to completion: once the host has answered the lookup
/// and the operation, whatever the answers are, the invocation has settled.
pub proof fn lemma_every_command_settles(
    command: CommandView,
    found: bool,
    outcome: Result<(), Seq<char>>,
)
    ensures
        dispatch_of(command).run(
            seq![EventView::Resolved { found }, EventView::Performed { outcome }],
        ).is_settled(),
{
    let events = seq![EventView::Resolved { found }, EventView::Performed { outcome }];
    let begun = dispatch_of(command);
    let looked_up = begun.step(events.first());
    let rest = events.drop_first();
    let performed = looked_up.step(rest.first());
    assert(performed.is_settled());
    assert(looked_up.run(rest) == performed.run(rest.drop_first()));
    lemma_settled_is_final(performed, rest.drop_first());
}

} // verus!
