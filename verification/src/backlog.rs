//! The backlog: the tasks that wait outside the board, as a plain list.

use crate::lanes::names_model;
use crate::task::{clone_loaded, loaded_model, task_models, Task, TaskModel};
use crate::view_controller::ViewController as VC;
use vstd::prelude::*;

verus! {

/// A message to the backlog controller.
#[derive(Debug, PartialEq, Eq)]
pub enum Message {
    /// Show the board. The backlog itself has nothing to do for it.
    OpenSprint,
    /// The backing store answered a load of the backlog.
    TasksLoaded(Result<Vec<Task>, String>),
}

/// The value of a message to the backlog controller.
pub enum MessageModel {
    OpenSprint,
    TasksLoaded(Result<Seq<TaskModel>, Seq<char>>),
}

impl View for Message {
    type V = MessageModel;

    open spec fn view(&self) -> MessageModel {
        match *self {
            Message::OpenSprint => MessageModel::OpenSprint,
            Message::TasksLoaded(loaded) => MessageModel::TasksLoaded(loaded_model(loaded)),
        }
    }
}

impl Clone for Message {
    fn clone(&self) -> (res: Self)
        ensures
            res@ == self@,
    {
        match self {
            Message::OpenSprint => Message::OpenSprint,
            Message::TasksLoaded(loaded) => Message::TasksLoaded(clone_loaded(loaded)),
        }
    }
}

/// The backlog's tasks after one message: a load that succeeded replaces
/// them all, and nothing else changes them.
pub open spec fn step(tasks: Seq<TaskModel>, msg: MessageModel) -> Seq<TaskModel> {
    match msg {
        MessageModel::TasksLoaded(Ok(fresh)) => fresh,
        _ => tasks,
    }
}

/// The titles of `tasks`, in order.
pub open spec fn titles(tasks: Seq<TaskModel>) -> Seq<Seq<char>> {
    Seq::new(tasks.len(), |i: int| tasks[i].title)
}

/// The backlog controller. It owns the backlog's tasks.
pub struct ViewController {
    tasks: Vec<Task>,
}

impl ViewController {
    /// The tasks of the backlog, in the order of the last load.
    pub closed spec fn tasks(&self) -> Seq<TaskModel> {
        task_models(self.tasks@)
    }

    /// A backlog without tasks.
    pub fn new() -> (res: Self)
        ensures
            res.tasks() == Seq::<TaskModel>::empty(),
    {
        ViewController { tasks: Vec::new() }
    }
}

impl VC for ViewController {
    type Message = Message;

    type Effect = ();

    type Projection = Vec<String>;

    /// Takes one message. The backlog never asks for an effect.
    fn update(&mut self, msg: Message)
        ensures
            final(self).tasks() == step(old(self).tasks(), msg@),
    {
        match msg {
            Message::OpenSprint => {},
            Message::TasksLoaded(loaded) => {
                match loaded {
                    Ok(tasks) => {
                        self.tasks = tasks;
                    },
                    Err(_) => {},
                }
            },
        }
    }

    /// The titles of the backlog's tasks, in order.
    fn view(&self) -> (res: Vec<String>)
        ensures
            names_model(res@) == titles(self.tasks()),
    {
        let mut shown: Vec<String> = Vec::new();
        let mut i: usize = 0;
        while i < self.tasks.len()
            invariant
                i <= self.tasks.len(),
                shown@.len() == i,
                forall|k: int| 0 <= k < i ==> (#[trigger] shown@[k])@ == self.tasks@[k].title@,
            decreases self.tasks.len() - i,
        {
            shown.push(self.tasks[i].title.clone());
            i += 1;
        }
        assert(names_model(shown@) =~= titles(self.tasks()));
        shown
    }
}

} // verus!
