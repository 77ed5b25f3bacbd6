//! The operations that the bridge publishes to the host, and the fixed names
//! under which the host finds them.

use vstd::prelude::*;

verus! {

/// One operation of the bridge.
#[derive(Clone, Copy, Debug, PartialEq, Eq, Structural)]
pub enum Operation {
    /// Start the backend.
    Init,
    /// Create a window.
    CreateWindow,
    /// Ask whether a window's closing was requested.
    WindowShouldClose,
    /// Process the pending platform events.
    PollEvents,
    /// Present a window's frame.
    SwapBuffers,
    /// Give the address of the backend's function resolver.
    GetProcAddress,
    /// Ask whether a key is held down in a window.
    GetKey,
    /// Read the backend's clock.
    GetTime,
}

impl Operation {
    /// The characters of the name under which the host finds the operation.
    pub open spec fn name_text(self) -> Seq<char> {
        match self {
            Operation::Init => "glfw_init"@,
            Operation::CreateWindow => "glfw_create_window"@,
            Operation::WindowShouldClose => "glfw_window_should_close"@,
            Operation::PollEvents => "glfw_poll_events"@,
            Operation::SwapBuffers => "glfw_swap_buffers"@,
            Operation::GetProcAddress => "glfw_get_proc_address"@,
            Operation::GetKey => "glfw_get_key"@,
            Operation::GetTime => "glfw_get_time"@,
        }
    }

    /// The name under which the host finds the operation.
    pub fn name(self) -> (name: &'static str)
        ensures
            name@ == self.name_text(),
    {
        match self {
            Operation::Init => "glfw_init",
            Operation::CreateWindow => "glfw_create_window",
            Operation::WindowShouldClose => "glfw_window_should_close",
            Operation::PollEvents => "glfw_poll_events",
            Operation::SwapBuffers => "glfw_swap_buffers",
            Operation::GetProcAddress => "glfw_get_proc_address",
            Operation::GetKey => "glfw_get_key",
            Operation::GetTime => "glfw_get_time",
        }
    }

    /// The operation that the host finds under `name`, if there is one.
    pub fn from_name(name: &str) -> (found: Option<Operation>)
        ensures
            match found {
                Some(op) => op.name_text() == name@,
                None => forall|op: Operation| op.name_text() != name@,
            },
    {
        let table = operations();
        let wanted: String = name.to_owned();
        let mut i: usize = 0;
        while i < table.len()
            invariant
                i <= table.len(),
                table@ == operation_table(),
                wanted@ == name@,
                forall|j: int| 0 <= j < i ==> (#[trigger] table@[j]).name_text() != name@,
            decreases table.len() - i,
        {
            let op: Operation = table[i];
            if op.name().to_owned() == wanted {
                return Some(op);
            }
            i += 1;
        }
        proof {
            assert forall|op: Operation| op.name_text() != name@ by {
                lemma_table_is_complete(op);
            }
        }
        None
    }
}

/// The dispatch table: the eight operations, each once, in the order in
/// which they are published.
pub open spec fn operation_table() -> Seq<Operation> {
    seq![
        Operation::Init,
        Operation::CreateWindow,
        Operation::WindowShouldClose,
        Operation::PollEvents,
        Operation::SwapBuffers,
        Operation::GetProcAddress,
        Operation::GetKey,
        Operation::GetTime,
    ]
}

/// Builds [`operation_table`].
pub fn operations() -> (table: Vec<Operation>)
    ensures
        table@ == operation_table(),
{
    let mut table: Vec<Operation> = Vec::new();
    table.push(Operation::Init);
    table.push(Operation::CreateWindow);
    table.push(Operation::WindowShouldClose);
    table.push(Operation::PollEvents);
    table.push(Operation::SwapBuffers);
    table.push(Operation::GetProcAddress);
    table.push(Operation::GetKey);
    table.push(Operation::GetTime);
    assert(table@ =~= operation_table());
    table
}

/// Every operation stands in the dispatch table.
pub proof fn lemma_table_is_complete(op: Operation)
    ensures
        exists|i: int| 0 <= i < operation_table().len() && operation_table()[i] == op,
{
    let t = operation_table();
    match op {
        Operation::Init => assert(t[0] == op),
        Operation::CreateWindow => assert(t[1] == op),
        Operation::WindowShouldClose => assert(t[2] == op),
        Operation::PollEvents => assert(t[3] == op),
        Operation::SwapBuffers => assert(t[4] == op),
        Operation::GetProcAddress => assert(t[5] == op),
        Operation::GetKey => assert(t[6] == op),
        Operation::GetTime => assert(t[7] == op),
    }
}

/// The dispatch table holds eight entries, and no two operations share a
/// name: a name leads the host to one operation only.
pub proof fn lemma_names_are_distinct(a: Operation, b: Operation)
    ensures
        operation_table().len() == 8,
        a.name_text() == b.name_text() ==> a == b,
{
    reveal_strlit("glfw_init");
    reveal_strlit("glfw_create_window");
    reveal_strlit("glfw_window_should_close");
    reveal_strlit("glfw_poll_events");
    reveal_strlit("glfw_swap_buffers");
    reveal_strlit("glfw_get_proc_address");
    reveal_strlit("glfw_get_key");
    reveal_strlit("glfw_get_time");
    assert(Operation::Init.name_text().len() == 9);
    assert(Operation::CreateWindow.name_text().len() == 18);
    assert(Operation::WindowShouldClose.name_text().len() == 24);
    assert(Operation::PollEvents.name_text().len() == 16);
    assert(Operation::SwapBuffers.name_text().len() == 17);
    assert(Operation::GetProcAddress.name_text().len() == 21);
    assert(Operation::GetKey.name_text().len() == 12);
    assert(Operation::GetTime.name_text().len() == 13);
}

} // verus!
