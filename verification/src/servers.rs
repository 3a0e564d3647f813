use vstd::prelude::*;

verus! {

/// A server with its primary and backup fallback chain, or an empty slot.
pub enum Server {
    Node(String, Box<Server>, Box<Server>),
    Empty,
}

/// The report `render` writes: an empty slot reads `None`; a node names
/// itself, then its primary's and backup's reports on indented lines.
pub open spec fn spec_render_server(s: Server) -> Seq<char>
    decreases s,
{
    match s {
        Server::Empty => "None"@,
        Server::Node(name, primary, backup) => "Server: "@ + name@ + "\n  Primary: "@
            + spec_render_server(*primary) + "\n  Backup: "@ + spec_render_server(*backup),
    }
}

impl Server {
    /// Writes the report, exactly as `spec_render_server` describes.
    pub fn render(&self) -> (r: String)
        ensures
            r@ == spec_render_server(*self),
        decreases *self,
    {
        match self {
            Server::Empty => String::from_str("None"),
            Server::Node(name, primary, backup) => {
                let mut s = String::new();
                s.append("Server: ");
                s.append(name.as_str());
                s.append("\n  Primary: ");
                let p = primary.render();
                s.append(p.as_str());
                s.append("\n  Backup: ");
                let b = backup.render();
                s.append(b.as_str());
                proof {
                    assert(s@ =~= spec_render_server(*self));
                }
                s
            },
        }
    }
}

} // verus!
