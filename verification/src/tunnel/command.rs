//! What the program is asked to be.

use vstd::prelude::*;

use crate::text::digits;

verus! {

/// Where the tunnel server listens.
pub const SERVER_ADDRESS: &'static str = "127.0.0.1:9050";

/// Where the tunnel client finds the tunnel server.
pub const SERVER_URL: &'static str = "ws://127.0.0.1:9050";

/// Where the tunnel client listens.
pub const CLIENT_ADDRESS: &'static str = "127.0.0.1:5439";

/// What the tunnel server shows once it listens.
pub const SERVER_LISTENING: &'static str = "Tunnel server listening on port 9050";

/// What the tunnel client shows once it listens.
pub const CLIENT_LISTENING: &'static str = "Client listening on port 5439";

/// How to call the program.
pub const USAGE: &'static str = "Usage: program [server|client]";

/// What the program is asked to be.
#[derive(Debug, Clone, Copy, PartialEq, Eq, Structural)]
pub enum Command {
    /// The tunnel's server.
    Server,
    /// The tunnel's client.
    Client,
    /// Neither: it only shows how it is called.
    Usage,
}

/// What the program's arguments ask for. The first is the program's own name, the
/// second decides, and the others do not matter.
pub open spec fn asked_for(args: Seq<String>) -> Command {
    if args.len() > 1 && args[1]@ == "server"@ {
        Command::Server
    } else if args.len() > 1 && args[1]@ == "client"@ {
        Command::Client
    } else {
        Command::Usage
    }
}

/// What the program's arguments, its own name first, ask for.
pub fn command(args: &[String]) -> (command: Command)
    ensures
        command == Command::Server <==> args@.len() > 1 && args@[1]@ == "server"@,
        command == Command::Client <==> args@.len() > 1 && args@[1]@ == "client"@,
        command == asked_for(args@),
{
    proof {
        commands_are_told_by_their_names(args@);
    }
    if args.len() > 1 {
        if args[1] == "server".to_owned() {
            return Command::Server;
        }
        if args[1] == "client".to_owned() {
            return Command::Client;
        }
    }
    Command::Usage
}

/// The program is a server exactly when its second argument is `server`, a client exactly when it is
/// `client`, and shows how it is called in all other cases.
pub proof fn commands_are_told_by_their_names(args: Seq<String>)
    ensures
        asked_for(args) == Command::Server <==> args.len() > 1 && args[1]@ == seq![
            's',
            'e',
            'r',
            'v',
            'e',
            'r',
        ],
        asked_for(args) == Command::Client <==> args.len() > 1 && args[1]@ == seq![
            'c',
            'l',
            'i',
            'e',
            'n',
            't',
        ],
        "server"@ != "client"@,
{
    reveal_strlit("server");
    reveal_strlit("client");
    assert("server"@ =~= seq!['s', 'e', 'r', 'v', 'e', 'r']);
    assert("client"@ =~= seq!['c', 'l', 'i', 'e', 'n', 't']);
    assert("server"@[0] != "client"@[0]);
}

/// How to call the program names both commands, and nothing else.
pub proof fn usage_names_the_commands()
    ensures
        USAGE@ == "Usage: program ["@ + "server"@ + "|"@ + "client"@ + "]"@,
{
    reveal_strlit("Usage: program [server|client]");
    reveal_strlit("Usage: program [");
    reveal_strlit("server");
    reveal_strlit("|");
    reveal_strlit("client");
    reveal_strlit("]");
    assert(USAGE@ =~= "Usage: program ["@ + "server"@ + "|"@ + "client"@ + "]"@);
}

/// The client looks for the server where the server listens, and each end shows the port that it
/// listens on.
pub proof fn addresses_agree()
    ensures
        SERVER_ADDRESS@ == "127.0.0.1:"@ + digits(9050),
        SERVER_URL@ == "ws://"@ + SERVER_ADDRESS@,
        SERVER_LISTENING@ == "Tunnel server listening on port "@ + digits(9050),
        CLIENT_ADDRESS@ == "127.0.0.1:"@ + digits(5439),
        CLIENT_LISTENING@ == "Client listening on port "@ + digits(5439),
{
    reveal_strlit("127.0.0.1:9050");
    reveal_strlit("ws://127.0.0.1:9050");
    reveal_strlit("127.0.0.1:5439");
    reveal_strlit("Tunnel server listening on port 9050");
    reveal_strlit("Client listening on port 5439");
    reveal_strlit("127.0.0.1:");
    reveal_strlit("ws://");
    reveal_strlit("Tunnel server listening on port ");
    reveal_strlit("Client listening on port ");
    reveal_with_fuel(digits, 4);
    assert(digits(9050) =~= seq!['9', '0', '5', '0']);
    assert(digits(5439) =~= seq!['5', '4', '3', '9']);
    assert(SERVER_ADDRESS@ =~= "127.0.0.1:"@ + digits(9050));
    assert(SERVER_URL@ =~= "ws://"@ + SERVER_ADDRESS@);
    assert(SERVER_LISTENING@ =~= "Tunnel server listening on port "@ + digits(9050));
    assert(CLIENT_ADDRESS@ =~= "127.0.0.1:"@ + digits(5439));
    assert(CLIENT_LISTENING@ =~= "Client listening on port "@ + digits(5439));
}

/// The two commands are told apart by the second argument alone.
pub proof fn second_argument_decides(args: Seq<String>, others: Seq<String>)
    requires
        args.len() > 1,
        others.len() > 1,
        args[1]@ == others[1]@,
    ensures
        asked_for(args) == asked_for(others),
{
}

} // verus!
