//! What is read off the field: the table of the menu's procedures and the
//! parameters of the place the player is in.

use vstd::prelude::*;

verus! {

/// The place of the camp menu's entry in the table of procedures.
pub const CAMP_PROC: usize = 0xf;

/// The place of the whole-map entry in the table of procedures.
pub const WHOLE_PROC: usize = 0x10;

/// The place of the save menu's entry in the table of procedures.
pub const SAVE_PROC: usize = 0x11;

/// The place of the log's entry in the table of procedures.
pub const LOG_PROC: usize = 0x16;

/// One entry of the field's table of procedures. The two procedures are
/// held as their addresses; an entry may lack either.
#[derive(Clone, Copy, Debug, PartialEq, Eq, Structural)]
pub struct ProcTable {
    pub exec_func: Option<usize>,
    pub check_func: Option<usize>,
    pub ret_state: u32,
    pub flag: u32,
}

/// The parameters of the place the player is in.
#[derive(Clone, Copy, Debug, PartialEq, Eq, Structural)]
pub struct MainParam {
    pub major: u16,
    pub minor: u16,
    pub env_major: u16,
    pub env_minor: u16,
    pub env_sub: u16,
    pub div_index: u16,
    pub pos_index: u16,
    pub mementos_section: u16,
    pub mementos_floor: u16,
    pub cl_total_day: u16,
    pub cl_time: u16,
    pub cl_weather: u16,
}

/// The head of the field's main work: four bytes that mark it.
#[derive(Clone, Copy, Debug, PartialEq, Eq)]
pub struct Main {
    pub magic: [u8; 4],
}

/// The addresses of the four menu procedures that are held back while the
/// free camera is on.
#[derive(Clone, Copy, Debug, PartialEq, Eq, Structural)]
pub struct MenuProcs {
    pub camp: Option<usize>,
    pub whole: Option<usize>,
    pub save: Option<usize>,
    pub log: Option<usize>,
}

impl ProcTable {
    /// The address of the procedure that runs the entry.
    pub fn get_exec_func(&self) -> (r: Option<usize>)
        ensures
            r == self.exec_func,
    {
        self.exec_func
    }

    /// The address of the procedure that says whether the entry may run.
    pub fn get_check_func(&self) -> (r: Option<usize>)
        ensures
            r == self.check_func,
    {
        self.check_func
    }

    /// The state that the field returns to after the entry.
    pub fn get_return_state(&self) -> (r: u32)
        ensures
            r == self.ret_state,
    {
        self.ret_state
    }

    /// The entry's flag word.
    pub fn get_flag(&self) -> (r: u32)
        ensures
            r == self.flag,
    {
        self.flag
    }
}

/// Whether the free camera lets a menu procedure run, and what the
/// procedure reports when it is held back: while the free camera is on, no
/// menu opens, and the procedure reports `false`.
pub open spec fn menu_proc_runs(freecam_active: bool) -> bool {
    !freecam_active
}

/// Picks the four menu procedures out of the table of procedures. `None`
/// when the table is too short to hold them.
pub fn menu_procs(table: &[ProcTable]) -> (r: Option<MenuProcs>)
    ensures
        r is Some <==> table@.len() > LOG_PROC,
        r matches Some(p) ==> {
            &&& p.camp == table@[CAMP_PROC as int].exec_func
            &&& p.whole == table@[WHOLE_PROC as int].exec_func
            &&& p.save == table@[SAVE_PROC as int].exec_func
            &&& p.log == table@[LOG_PROC as int].exec_func
        },
{
    if table.len() > LOG_PROC {
        Some(
            MenuProcs {
                camp: table[CAMP_PROC].get_exec_func(),
                whole: table[WHOLE_PROC].get_exec_func(),
                save: table[SAVE_PROC].get_exec_func(),
                log: table[LOG_PROC].get_exec_func(),
            },
        )
    } else {
        None
    }
}

} // verus!
