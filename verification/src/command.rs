//! The textual commands that the control process of the cartridge takes
//! over its local socket.

use vstd::prelude::*;
use crate::text::{decimal, push_decimal};

verus! {

pub const EXEC_CMD: u8 = 0;

pub const GO_CMD: u8 = 1;

pub const LOAD_CMD: u8 = 2;

pub const DIR_CMD: u8 = 3;

pub const CATALOG_CMD: u8 = 4;

pub const DRIVES_CMD: u8 = 5;

pub const MOUNT_CMD: u8 = 6;

pub const ASSIGN_CMD: u8 = 7;

/// The text of a shell command: `sys.shell(<cmd>, "<args>", <proc>)`, the
/// two numbers in decimal and the argument as it was given.
pub open spec fn shell_text(cmd: u8, args: Seq<char>, proc: u32) -> Seq<char> {
    "sys.shell("@ + decimal(cmd as nat) + ", \""@ + args + "\", "@ + decimal(proc as nat) + ")"@
}

/// The text of a reboot command: `sys.reboot(<mode>)`.
pub open spec fn reboot_text(mode: u8) -> Seq<char> {
    "sys.reboot("@ + decimal(mode as nat) + ")"@
}

/// The text that makes the control process follow the host's directory:
/// `sys.chdir("<path>")`.
pub open spec fn chdir_text(path: Seq<char>) -> Seq<char> {
    "sys.chdir(\""@ + path + "\")"@
}

/// Builds the shell command `cmd` with its argument string, to be answered
/// to process `proc` (0 asks for no redirection). The argument is not
/// escaped: a quote or a line break in it reaches the wire as it is.
pub fn shell(cmd: u8, args: &String, proc: u32) -> (msg: String)
    ensures
        msg@ == shell_text(cmd, args@, proc),
{
    let mut msg = String::new();
    msg.append("sys.shell(");
    push_decimal(&mut msg, cmd as u32);
    msg.append(", \"");
    msg.append(args.as_str());
    msg.append("\", ");
    push_decimal(&mut msg, proc);
    msg.append(")");
    assert(msg@ =~= shell_text(cmd, args@, proc));
    msg
}

/// Builds the command that sends the STOP key.
pub fn stop_cmd() -> (msg: String)
    ensures
        msg@ == "sys.stop()"@,
{
    String::from_str("sys.stop()")
}

/// Builds the command that reboots cartridge and computer in `mode`.
pub fn reboot_cmd(mode: u8) -> (msg: String)
    ensures
        msg@ == reboot_text(mode),
{
    let mut msg = String::new();
    msg.append("sys.reboot(");
    push_decimal(&mut msg, mode as u32);
    msg.append(")");
    assert(msg@ =~= reboot_text(mode));
    msg
}

/// Builds the command that moves the shell of the cartridge to `path`.
pub fn chdir_cmd(path: &str) -> (msg: String)
    ensures
        msg@ == chdir_text(path@),
{
    let mut msg = String::new();
    msg.append("sys.chdir(\"");
    msg.append(path);
    msg.append("\")");
    assert(msg@ =~= chdir_text(path@));
    msg
}

/// The switches that a string of flag letters stands for: each character
/// becomes `/`, the character and a blank.
pub open spec fn switches_text(flags: Seq<char>) -> Seq<char>
    decreases flags.len(),
{
    if flags.len() == 0 {
        Seq::empty()
    } else {
        switches_text(flags.drop_last()) + seq!['/', flags.last(), ' ']
    }
}

/// Turns a string of flag letters into switches, one per character.
pub fn switches(flags: &str) -> (out: String)
    ensures
        out@ == switches_text(flags@),
{
    let mut out = String::new();
    for c in it: flags.chars()
        invariant
            it.seq() == flags@,
            out@ == switches_text(flags@.take(it.index() as int)),
    {
        let ghost before = flags@.take(it.index() as int);
        let ghost after = flags@.take(it.index() + 1);
        out.push('/');
        out.push(c);
        out.push(' ');
        assert(after.drop_last() =~= before);
        assert(out@ =~= switches_text(before) + seq!['/', c, ' ']);
    }
    assert(flags@.take(flags@.len() as int) =~= flags@);
    out
}

/// The strings of `args` with one blank between each two of them.
pub open spec fn joined_text(args: Seq<String>) -> Seq<char>
    decreases args.len(),
{
    if args.len() == 0 {
        Seq::empty()
    } else if args.len() == 1 {
        args[0]@
    } else {
        joined_text(args.drop_last()) + seq![' '] + args.last()@
    }
}

/// Joins the arguments with single blanks.
pub fn joined(args: &Vec<String>) -> (out: String)
    ensures
        out@ == joined_text(args@),
{
    let mut out = String::new();
    let mut i: usize = 0;
    while i < args.len()
        invariant
            i <= args.len(),
            out@ == joined_text(args@.take(i as int)),
        decreases args.len() - i,
    {
        let ghost before = args@.take(i as int);
        let ghost after = args@.take(i + 1);
        if i > 0 {
            out.push(' ');
        }
        out.append(args[i].as_str());
        assert(after.drop_last() =~= before);
        assert(after.last() == args@[i as int]);
        assert(out@ =~= joined_text(after));
        i = i + 1;
    }
    assert(args@.take(args@.len() as int) =~= args@);
    out
}

/// What the command line can ask of the cartridge.
#[allow(inconsistent_fields)]
pub enum Syscommands {
    /// Launch an application on the Commodore.
    Go { app: String },
    /// Launch a native program on the Commodore.
    Load { prg: String },
    /// Execute a command or program of the cartridge with arguments.
    Exec { cmd: String, args: Vec<String> },
    /// List the files of a device in the short format.
    Dir { dev: String },
    /// List the files of a device in the long format.
    Catalog { dev: String },
    /// Show the active virtual drives and mounts.
    Drives { dev: Option<String> },
    /// Mount a virtual floppy image.
    Mount { dev: String, dimage: String },
    /// Assign a local path to a virtual drive.
    Assign { dev: String, path: String },
    /// Reboot cartridge and Commodore.
    Reboot,
    /// Stop a running program.
    Stop,
}

impl Syscommands {
    /// Whether the command ends the exchange at once: its output is never
    /// redirected, and nobody waits for any.
    pub open spec fn is_detached(self) -> bool {
        self is Go || self is Load || self is Reboot || self is Stop
    }

    /// The argument string that goes into the shell command; `xargs` holds
    /// the switches of the command line. Reboot and stop have none.
    pub open spec fn argument_text(self, xargs: Seq<char>) -> Seq<char> {
        match self {
            Syscommands::Go { app } => app@,
            Syscommands::Load { prg } => prg@,
            Syscommands::Exec { cmd, args } => cmd@ + seq![' '] + xargs + joined_text(args@),
            Syscommands::Dir { dev } => dev@,
            Syscommands::Catalog { dev } => xargs + dev@,
            Syscommands::Drives { dev } => match dev {
                Some(d) => d@,
                None => Seq::empty(),
            },
            Syscommands::Mount { dev, dimage } => dev@ + seq![' '] + dimage@,
            Syscommands::Assign { dev, path } => dev@ + seq![' '] + path@,
            Syscommands::Reboot => Seq::empty(),
            Syscommands::Stop => Seq::empty(),
        }
    }

    /// The identifier of the shell command; reboot and stop are no shell
    /// commands.
    pub open spec fn shell_id(self) -> Option<u8> {
        match self {
            Syscommands::Exec { .. } => Some(EXEC_CMD),
            Syscommands::Go { .. } => Some(GO_CMD),
            Syscommands::Load { .. } => Some(LOAD_CMD),
            Syscommands::Dir { .. } => Some(DIR_CMD),
            Syscommands::Catalog { .. } => Some(CATALOG_CMD),
            Syscommands::Drives { .. } => Some(DRIVES_CMD),
            Syscommands::Mount { .. } => Some(MOUNT_CMD),
            Syscommands::Assign { .. } => Some(ASSIGN_CMD),
            Syscommands::Reboot => None,
            Syscommands::Stop => None,
        }
    }

    /// The text sent for the command. A detached command names process 0
    /// whatever `proc` is; reboot always asks for mode 0.
    pub open spec fn message_text(self, xargs: Seq<char>, proc: u32) -> Seq<char> {
        match self.shell_id() {
            Some(id) => shell_text(
                id,
                self.argument_text(xargs),
                if self.is_detached() {
                    0
                } else {
                    proc
                },
            ),
            None => if self is Reboot {
                reboot_text(0)
            } else {
                "sys.stop()"@
            },
        }
    }

    /// Whether the caller is done once the command is sent, with no
    /// redirected output to wait for.
    pub fn detached(&self) -> (d: bool)
        ensures
            d == self.is_detached(),
    {
        match self {
            Syscommands::Go { .. } => true,
            Syscommands::Load { .. } => true,
            Syscommands::Reboot => true,
            Syscommands::Stop => true,
            _ => false,
        }
    }

    /// Builds the text to send for the command, with the switches `xargs`
    /// and the process `proc` that takes redirected output.
    pub fn message(&self, xargs: &str, proc: u32) -> (msg: String)
        ensures
            msg@ == self.message_text(xargs@, proc),
    {
        match self {
            Syscommands::Go { app } => shell(GO_CMD, app, 0),
            Syscommands::Load { prg } => shell(LOAD_CMD, prg, 0),
            Syscommands::Reboot => reboot_cmd(0),
            Syscommands::Stop => stop_cmd(),
            Syscommands::Dir { dev } => shell(DIR_CMD, dev, proc),
            Syscommands::Catalog { dev } => {
                let mut argstr = String::from_str(xargs);
                argstr.append(dev.as_str());
                shell(CATALOG_CMD, &argstr, proc)
            },
            Syscommands::Drives { dev } => {
                let argstr = match dev {
                    Some(d) => d.clone(),
                    None => String::new(),
                };
                shell(DRIVES_CMD, &argstr, proc)
            },
            Syscommands::Mount { dev, dimage } => {
                let mut argstr = dev.clone();
                argstr.push(' ');
                argstr.append(dimage.as_str());
                assert(argstr@ =~= dev@ + seq![' '] + dimage@);
                shell(MOUNT_CMD, &argstr, proc)
            },
            Syscommands::Assign { dev, path } => {
                let mut argstr = dev.clone();
                argstr.push(' ');
                argstr.append(path.as_str());
                assert(argstr@ =~= dev@ + seq![' '] + path@);
                shell(ASSIGN_CMD, &argstr, proc)
            },
            Syscommands::Exec { cmd, args } => {
                let argstr = joined(args);
                let mut exe = cmd.clone();
                exe.push(' ');
                exe.append(xargs);
                exe.append(argstr.as_str());
                assert(exe@ =~= cmd@ + seq![' '] + xargs@ + joined_text(args@));
                shell(EXEC_CMD, &exe, proc)
            },
        }
    }
}

} // verus!
