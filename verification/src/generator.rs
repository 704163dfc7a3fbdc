//! Generators written out by hand as the state machines that a compiler
//! makes of a function that yields: each `resume` runs the code up to the
//! next yield and records where it stopped.
use vstd::prelude::*;
use vstd::string::*;

verus! {

/// What a resume came to: a value yielded on the way, or the final value.
#[derive(Debug)]
pub enum GeneratorState<Y, R> {
    Yielded(Y),
    Complete(R),
}

/// A function that can stop at a yield and be resumed there.
pub trait Generator: Sized {
    type Yield;

    type Return;

    /// Whether the generator can be resumed (it has not completed).
    spec fn resumable(&self) -> bool;

    fn resume(&mut self) -> (state: GeneratorState<Self::Yield, Self::Return>)
        requires
            old(self).resumable(),
    ;
}

/// A generator that takes a number, yields its double, and then completes;
/// it prints "Hello" before the yield and "World" after it.
#[derive(Debug, PartialEq, Eq, Structural)]
pub enum GeneratorA {
    Enter(i32),
    Yield1(i32),
    Exit,
}

impl GeneratorA {
    /// A generator for the argument `a1`, not run yet.
    pub fn start(a1: i32) -> (generator: GeneratorA)
        ensures
            generator == GeneratorA::Enter(a1),
    {
        GeneratorA::Enter(a1)
    }

    /// The line that the next resume prints.
    pub fn resume_message(&self) -> (message: Option<String>)
        ensures
            match *self {
                GeneratorA::Enter(_) => message matches Some(m) && m@ == "Hello"@,
                GeneratorA::Yield1(_) => message matches Some(m) && m@ == "World"@,
                GeneratorA::Exit => message is None,
            },
    {
        match self {
            GeneratorA::Enter(_) => Some(String::from_str("Hello")),
            GeneratorA::Yield1(_) => Some(String::from_str("World")),
            GeneratorA::Exit => None,
        }
    }
}

impl Generator for GeneratorA {
    type Yield = i32;

    type Return = ();

    /// A generator that has exited cannot be resumed, and the double of the
    /// argument must fit in an `i32`.
    open spec fn resumable(&self) -> bool {
        match *self {
            GeneratorA::Enter(a) => i32::MIN <= a * 2 <= i32::MAX,
            GeneratorA::Yield1(_) => true,
            GeneratorA::Exit => false,
        }
    }

    fn resume(&mut self) -> (state: GeneratorState<i32, ()>)
        ensures
            match *old(self) {
                GeneratorA::Enter(a) => {
                    &&& *final(self) == GeneratorA::Yield1((a * 2) as i32)
                    &&& state matches GeneratorState::Yielded(y) && y == a * 2
                },
                GeneratorA::Yield1(_) => {
                    &&& *final(self) == GeneratorA::Exit
                    &&& state matches GeneratorState::Complete(())
                },
                GeneratorA::Exit => false,
            },
    {
        match *self {
            GeneratorA::Enter(a) => {
                let a = a * 2;
                *self = GeneratorA::Yield1(a);
                GeneratorState::Yielded(a)
            },
            GeneratorA::Yield1(_) => {
                *self = GeneratorA::Exit;
                GeneratorState::Complete(())
            },
            GeneratorA::Exit => {
                proof {
                    assert(false);
                }
                GeneratorState::Complete(())
            },
        }
    }
}

/// A generator that makes a string, yields its length, and after the yield
/// prints "Hello " followed by the string it kept across the yield.
#[derive(Debug)]
pub enum GeneratorB {
    Enter,
    Yield1 { to_borrow: String },
    Exit,
}

impl GeneratorB {
    /// A generator not run yet.
    pub fn start() -> (generator: GeneratorB)
        ensures
            generator is Enter,
    {
        GeneratorB::Enter
    }

    /// The line that the next resume prints, if it prints one.
    pub fn resume_message(&self) -> (message: Option<String>)
        ensures
            match *self {
                GeneratorB::Enter => message is None,
                GeneratorB::Yield1 { to_borrow } => message matches Some(m) && m@ == "Hello "@ + to_borrow@,
                GeneratorB::Exit => message is None,
            },
    {
        match self {
            GeneratorB::Enter => None,
            GeneratorB::Yield1 { to_borrow } => {
                let mut line = String::from_str("Hello ");
                line.append(to_borrow.as_str());
                Some(line)
            },
            GeneratorB::Exit => None,
        }
    }
}

impl Generator for GeneratorB {
    type Yield = usize;

    type Return = ();

    /// A generator that has exited cannot be resumed.
    open spec fn resumable(&self) -> bool {
        !(*self is Exit)
    }

    fn resume(&mut self) -> (state: GeneratorState<usize, ()>)
        ensures
            match *old(self) {
                GeneratorB::Enter => {
                    &&& *final(self) matches GeneratorB::Yield1 { to_borrow } && to_borrow@ == "Hello"@
                    &&& state matches GeneratorState::Yielded(n) && n == 5
                },
                GeneratorB::Yield1 { .. } => {
                    &&& *final(self) is Exit
                    &&& state matches GeneratorState::Complete(())
                },
                GeneratorB::Exit => false,
            },
    {
        match self {
            GeneratorB::Enter => {
                let to_borrow = String::from_str("Hello");
                let borrowed = to_borrow.as_str();
                proof {
                    reveal_strlit("Hello");
                    assert(is_ascii(borrowed));
                }
                let res = borrowed.as_bytes().len();
                *self = GeneratorB::Yield1 { to_borrow };
                GeneratorState::Yielded(res)
            },
            GeneratorB::Yield1 { .. } => {
                *self = GeneratorB::Exit;
                GeneratorState::Complete(())
            },
            GeneratorB::Exit => {
                proof {
                    assert(false);
                }
                GeneratorState::Complete(())
            },
        }
    }
}

} // verus!
