//! What an application is configured with: where its server listens, and
//! what is generated for it.

use vstd::prelude::*;

verus! {

/// The language an entity is generated for.
#[derive(Clone, Copy, Debug, PartialEq, Eq, Structural)]
pub enum Environment {
    Rust,
    NodeJS,
    Python,
    Go,
    Java,
}

/// The language a client is generated in.
#[derive(Clone, Copy, Debug, PartialEq, Eq, Structural)]
pub enum ClientLanguage {
    JavaScript,
    TypeScript,
    Swift,
    Kotlin,
    CSharp,
    Dart,
}

/// How the server is set up: the address and port it binds to, the secret
/// its tokens are signed with, and the prefix of its paths.
#[derive(Debug)]
pub struct ServerConf {
    pub bind: (String, u16),
    pub jwt_secret: Option<String>,
    pub path_prefix: Option<String>,
}

/// What entities are generated: under which name, for which language, where to.
#[derive(Debug)]
pub struct EntityGeneratorConf {
    pub name: Option<String>,
    pub provider: Environment,
    pub dest: String,
}

/// What client is generated: under which name, in which language, where to,
/// whether as a package, for which host, and how its object is called.
#[derive(Debug)]
pub struct ClientGeneratorConf {
    pub name: Option<String>,
    pub provider: ClientLanguage,
    pub dest: String,
    pub package: bool,
    pub host: String,
    pub object_name: Option<String>,
}

/// What an optional text is.
pub open spec fn text_model(text: Option<String>) -> Option<Seq<char>> {
    match text {
        Some(t) => Some(t@),
        None => None,
    }
}

fn clone_text(text: &Option<String>) -> (copy: Option<String>)
    ensures
        text_model(copy) == text_model(*text),
{
    match text {
        Some(t) => Some(t.clone()),
        None => None,
    }
}

impl Clone for ServerConf {
    fn clone(&self) -> (copy: ServerConf)
        ensures
            copy.bind.0@ == self.bind.0@,
            copy.bind.1 == self.bind.1,
            text_model(copy.jwt_secret) == text_model(self.jwt_secret),
            text_model(copy.path_prefix) == text_model(self.path_prefix),
    {
        ServerConf {
            bind: (self.bind.0.clone(), self.bind.1),
            jwt_secret: clone_text(&self.jwt_secret),
            path_prefix: clone_text(&self.path_prefix),
        }
    }
}

impl Clone for EntityGeneratorConf {
    fn clone(&self) -> (copy: EntityGeneratorConf)
        ensures
            text_model(copy.name) == text_model(self.name),
            copy.provider == self.provider,
            copy.dest@ == self.dest@,
    {
        EntityGeneratorConf {
            name: clone_text(&self.name),
            provider: self.provider,
            dest: self.dest.clone(),
        }
    }
}

impl Clone for ClientGeneratorConf {
    fn clone(&self) -> (copy: ClientGeneratorConf)
        ensures
            text_model(copy.name) == text_model(self.name),
            copy.provider == self.provider,
            copy.dest@ == self.dest@,
            copy.package == self.package,
            copy.host@ == self.host@,
            text_model(copy.object_name) == text_model(self.object_name),
    {
        ClientGeneratorConf {
            name: clone_text(&self.name),
            provider: self.provider,
            dest: self.dest.clone(),
            package: self.package,
            host: self.host.clone(),
            object_name: clone_text(&self.object_name),
        }
    }
}

} // verus!
