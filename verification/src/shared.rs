//! Names that the client and the server of the simulation share: the
//! bodies an entity can orbit, and the kinds of entity.

use vstd::prelude::*;
use vstd::string::StringExecFns;

verus! {

/// A body of the solar system, or one with a name of its own.
#[derive(Debug, Clone)]
pub enum Node {
    Sun,
    Earth,
    Mars,
    Venus,
    Jupiter,
    Saturn,
    Uranus,
    Neptune,
    Pluto,
    Custom(String),
}

/// `s` is the name of one of the nine built-in bodies.
pub open spec fn is_body_name(s: Seq<char>) -> bool {
    ||| s == "Sun"@
    ||| s == "Earth"@
    ||| s == "Mars"@
    ||| s == "Venus"@
    ||| s == "Jupiter"@
    ||| s == "Saturn"@
    ||| s == "Uranus"@
    ||| s == "Neptune"@
    ||| s == "Pluto"@
}

fn text_is(s: &str, word: &str) -> (r: bool)
    ensures
        r == (s@ == word@),
{
    let a: String = s.to_owned();
    let b: String = word.to_owned();
    a == b
}

impl Node {
    /// The name of the body.
    pub open spec fn name(&self) -> Seq<char> {
        match self {
            Node::Sun => "Sun"@,
            Node::Earth => "Earth"@,
            Node::Mars => "Mars"@,
            Node::Venus => "Venus"@,
            Node::Jupiter => "Jupiter"@,
            Node::Saturn => "Saturn"@,
            Node::Uranus => "Uranus"@,
            Node::Neptune => "Neptune"@,
            Node::Pluto => "Pluto"@,
            Node::Custom(name) => name@,
        }
    }

    /// The name of the body.
    pub fn as_str(&self) -> (r: &str)
        ensures
            r@ == self.name(),
    {
        match self {
            Node::Sun => "Sun",
            Node::Earth => "Earth",
            Node::Mars => "Mars",
            Node::Venus => "Venus",
            Node::Jupiter => "Jupiter",
            Node::Saturn => "Saturn",
            Node::Uranus => "Uranus",
            Node::Neptune => "Neptune",
            Node::Pluto => "Pluto",
            Node::Custom(name) => name.as_str(),
        }
    }

    /// The name as an owned string, for display.
    pub fn to_text(&self) -> (r: String)
        ensures
            r@ == self.name(),
    {
        self.as_str().to_owned()
    }

    /// The body of the given name. Every string names a body: one that
    /// is not built in names a custom body.
    pub fn parse(s: &str) -> (r: Node)
        ensures
            r.name() == s@,
            r is Custom <==> !is_body_name(s@),
    {
        if text_is(s, "Sun") {
            Node::Sun
        } else if text_is(s, "Earth") {
            Node::Earth
        } else if text_is(s, "Mars") {
            Node::Mars
        } else if text_is(s, "Venus") {
            Node::Venus
        } else if text_is(s, "Jupiter") {
            Node::Jupiter
        } else if text_is(s, "Saturn") {
            Node::Saturn
        } else if text_is(s, "Uranus") {
            Node::Uranus
        } else if text_is(s, "Neptune") {
            Node::Neptune
        } else if text_is(s, "Pluto") {
            Node::Pluto
        } else {
            Node::Custom(s.to_owned())
        }
    }
}

impl std::str::FromStr for Node {
    type Err = String;

    fn from_str(s: &str) -> (r: Result<Node, String>)
        ensures
            r matches Ok(n) && n.name() == s@ && (n is Custom <==> !is_body_name(s@)),
    {
        Ok(Node::parse(s))
    }
}

/// What kind of thing an entity of the simulation is.
#[derive(Debug, Clone, Copy, PartialEq, Eq, Structural)]
pub enum EntityType {
    Ship,
    Planet,
    Asteroid,
    Container,
}

/// `s` is the name of a kind of entity.
pub open spec fn is_entity_type_name(s: Seq<char>) -> bool {
    ||| s == "Ship"@
    ||| s == "Planet"@
    ||| s == "Asteroid"@
    ||| s == "Container"@
}

/// What the error for a string that names no kind of entity says.
pub open spec fn unknown_entity_type(s: Seq<char>) -> Seq<char> {
    "Unknown entity type: "@ + s
}

impl EntityType {
    /// The name of the kind.
    pub open spec fn name(&self) -> Seq<char> {
        match self {
            EntityType::Ship => "Ship"@,
            EntityType::Planet => "Planet"@,
            EntityType::Asteroid => "Asteroid"@,
            EntityType::Container => "Container"@,
        }
    }

    /// The name of the kind.
    pub fn as_str(&self) -> (r: &str)
        ensures
            r@ == self.name(),
    {
        match self {
            EntityType::Ship => "Ship",
            EntityType::Planet => "Planet",
            EntityType::Asteroid => "Asteroid",
            EntityType::Container => "Container",
        }
    }

    /// The name as an owned string, for display.
    pub fn to_text(&self) -> (r: String)
        ensures
            r@ == self.name(),
    {
        self.as_str().to_owned()
    }

    /// The kind of the given name; an error that quotes the string if it
    /// names none.
    pub fn parse(s: &str) -> (r: Result<EntityType, String>)
        ensures
            r is Ok <==> is_entity_type_name(s@),
            r matches Ok(t) ==> t.name() == s@,
            r matches Err(e) ==> e@ == unknown_entity_type(s@),
    {
        if text_is(s, "Ship") {
            Ok(EntityType::Ship)
        } else if text_is(s, "Planet") {
            Ok(EntityType::Planet)
        } else if text_is(s, "Asteroid") {
            Ok(EntityType::Asteroid)
        } else if text_is(s, "Container") {
            Ok(EntityType::Container)
        } else {
            Err("Unknown entity type: ".to_owned().concat(s))
        }
    }
}

impl std::str::FromStr for EntityType {
    type Err = String;

    fn from_str(s: &str) -> (r: Result<EntityType, String>)
        ensures
            r is Ok <==> is_entity_type_name(s@),
            r matches Ok(t) ==> t.name() == s@,
            r matches Err(e) ==> e@ == unknown_entity_type(s@),
    {
        EntityType::parse(s)
    }
}

/// Reading back the name of a kind gives the kind.
pub proof fn lemma_entity_type_names_differ(a: EntityType, b: EntityType)
    requires
        a.name() == b.name(),
    ensures
        a == b,
{
    reveal_strlit("Ship");
    reveal_strlit("Planet");
    reveal_strlit("Asteroid");
    reveal_strlit("Container");
    assert("Planet"@.len() == 6);
    assert("Asteroid"@.len() == 8);
    assert("Container"@.len() == 9);
}

} // verus!
