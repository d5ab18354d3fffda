//! What is read off a cutscene: the tables of its commands.

use vstd::prelude::*;

verus! {

/// How many commands a cutscene knows.
pub const EVT_COMMAND_COUNT: usize = 121;

/// The procedures of one command, held as their addresses, and the sizes
/// the game keeps beside them.
#[derive(Clone, Copy, Debug, PartialEq, Eq)]
pub struct EvtCommandExecuteTable {
    pub funcs: [usize; 6],
    pub field30: u32,
    pub field34: u32,
    pub struct_size: u32,
    pub field3c: u32,
    pub field40: u32,
    pub field44: u32,
}

/// The procedures by which a command is read and written, as their addresses.
#[derive(Clone, Copy, Debug, PartialEq, Eq, Structural)]
pub struct EvtCommandSerialTable {
    pub get_asset: usize,
    pub stream_read: usize,
    pub stream_write: usize,
}

/// One command of a cutscene: its name of four letters and its tables.
#[derive(Clone, Copy, Debug, PartialEq, Eq)]
pub struct EvtCommandTable {
    pub name: [u8; 4],
    pub execute: EvtCommandExecuteTable,
    pub serial: Option<EvtCommandSerialTable>,
}

/// A command that moves or sets the cutscene's camera. While the free
/// camera is on, such a command does nothing.
#[derive(Clone, Copy, Debug, PartialEq, Eq, Structural)]
pub enum CameraCommand {
    /// `CMD_`: the camera is moved.
    MoveDirect,
    /// `CSA_`: the camera is set from an asset.
    SetAsset,
    /// `CSD_`: the camera is set.
    SetDirect,
}

/// The camera command that a name of four letters stands for, if any.
pub open spec fn camera_command_of(name: [u8; 4]) -> Option<CameraCommand> {
    if name[0] == 0x43 && name[1] == 0x4d && name[2] == 0x44 && name[3] == 0x5f {
        Some(CameraCommand::MoveDirect)
    } else if name[0] == 0x43 && name[1] == 0x53 && name[2] == 0x41 && name[3] == 0x5f {
        Some(CameraCommand::SetAsset)
    } else if name[0] == 0x43 && name[1] == 0x53 && name[2] == 0x44 && name[3] == 0x5f {
        Some(CameraCommand::SetDirect)
    } else {
        None
    }
}

impl EvtCommandExecuteTable {
    /// The address of the command's first procedure, the one that runs it.
    pub fn get_func_0(&self) -> (r: usize)
        ensures
            r == self.funcs[0],
    {
        self.funcs[0]
    }
}

impl EvtCommandTable {
    /// The command's name.
    pub fn get_name(&self) -> (r: [u8; 4])
        ensures
            r == self.name,
    {
        self.name
    }

    /// The command's procedures.
    pub fn get_execute_table(&self) -> (r: &EvtCommandExecuteTable)
        ensures
            *r == self.execute,
    {
        &self.execute
    }

    /// The procedures by which the command is read and written, if it has any.
    pub fn get_serial_table(&self) -> (r: Option<EvtCommandSerialTable>)
        ensures
            r == self.serial,
    {
        self.serial
    }

    /// The camera command that this command is, if it is one, with the
    /// address of the procedure that the free camera stands in for.
    pub fn camera_command(&self) -> (r: Option<(CameraCommand, usize)>)
        ensures
            r == match camera_command_of(self.name) {
                Some(c) => Some((c, self.execute.funcs[0])),
                None => None,
            },
    {
        let n: [u8; 4] = self.name;
        let first: usize = self.execute.get_func_0();
        if n[0] == 0x43 && n[3] == 0x5f {
            if n[1] == 0x4d && n[2] == 0x44 {
                Some((CameraCommand::MoveDirect, first))
            } else if n[1] == 0x53 && n[2] == 0x41 {
                Some((CameraCommand::SetAsset, first))
            } else if n[1] == 0x53 && n[2] == 0x44 {
                Some((CameraCommand::SetDirect, first))
            } else {
                None
            }
        } else {
            None
        }
    }
}

} // verus!
