use vstd::prelude::*;

verus! {

/// A marker capability: it asks for no operation.
pub trait Animal {
}

/// A type with no state that has the `Animal` capability.
pub struct Dog;

impl Animal for Dog {
}

/// The line that feeding any animal emits.
pub open spec fn animal_line() -> Seq<char> {
    "Feeding an animal"@
}

/// The line that feeding a dog emits before it feeds the animal in it.
pub open spec fn dog_line() -> Seq<char> {
    "Feeding a dog"@
}

/// The text of each line in an output log.
pub open spec fn lines(log: Seq<String>) -> Seq<Seq<char>> {
    log.map_values(|line: String| line@)
}

/// Feeds anything with the `Animal` capability, seen only through that
/// capability: appends the animal line to `out`.
pub fn feed_animal<A: Animal + ?Sized>(_animal: &A, out: &mut Vec<String>)
    ensures
        lines(final(out)@) == lines(old(out)@).push(animal_line()),
{
    let line = String::from_str("Feeding an animal");
    out.push(line);
    proof {
        assert(lines(out@) =~= lines(old(out)@).push(animal_line()));
    }
}

/// Feeds a dog: appends the dog line, then feeds the same dog as an animal.
pub fn feed_dog(dog: &Dog, out: &mut Vec<String>)
    ensures
        lines(final(out)@) == lines(old(out)@).push(dog_line()).push(animal_line()),
{
    out.push(String::from_str("Feeding a dog"));
    proof {
        assert(lines(out@) =~= lines(old(out)@).push(dog_line()));
    }
    feed_animal(dog, out);
}

/// The lines of the feeding walk-through, in order: a dog is fed directly
/// (two lines), the same dog is fed as an animal, then through a reference
/// that only shows the `Animal` capability, once more through that
/// reference, and last the dog is fed as a dog again (two lines).
pub open spec fn demo_lines() -> Seq<Seq<char>> {
    seq![dog_line(), animal_line(), animal_line(), animal_line(), animal_line(), dog_line(), animal_line()]
}

/// Runs the feeding walk-through and appends every line it emits to `out`.
pub fn feeding_demo(out: &mut Vec<String>)
    ensures
        lines(final(out)@) == lines(old(out)@) + demo_lines(),
{
    let dog = Dog;
    feed_dog(&dog, out);
    feed_animal(&dog, out);
    let animal: &dyn Animal = &dog;
    feed_animal(animal, out);
    feed_animal(animal, out);
    feed_dog(&dog, out);
    assert(lines(out@) =~= lines(old(out)@) + demo_lines());
}

} // verus!
