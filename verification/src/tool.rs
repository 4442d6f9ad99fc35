//! Tool descriptors: what a tool is called, what it does, which parameters
//! it takes, and how that is written out for a model to read.

use crate::text::occurs_in;
use vstd::prelude::*;
use vstd::string::*;

verus! {

/// The kind of value a tool parameter takes.
#[derive(Clone, Copy, Debug, PartialEq, Eq, Structural)]
pub enum ToolSchema {
    Number,
    String,
    Bool,
}

impl ToolSchema {
    /// The tag that stands for this kind in a rendering.
    pub open spec fn tag(self) -> Seq<char> {
        match self {
            ToolSchema::Number => "<number>"@,
            ToolSchema::String => "<string>"@,
            ToolSchema::Bool => "<bool>"@,
        }
    }

    /// The tag of this kind as text: `<number>`, `<string>` or `<bool>`.
    pub fn render(&self) -> (text: String)
        ensures
            text@ == self.tag(),
    {
        match self {
            ToolSchema::Number => String::from_str("<number>"),
            ToolSchema::String => String::from_str("<string>"),
            ToolSchema::Bool => String::from_str("<bool>"),
        }
    }
}

/// A tool descriptor as a mathematical value.
pub struct ToolView {
    pub name: Seq<char>,
    pub description: Seq<char>,
    pub schema: Seq<(Seq<char>, ToolSchema)>,
    pub handler: Seq<char>,
}

/// The parameters of a schema, each name as a sequence of characters.
pub open spec fn schema_view(schema: Seq<(String, ToolSchema)>) -> Seq<(Seq<char>, ToolSchema)> {
    schema.map_values(|entry: (String, ToolSchema)| (entry.0@, entry.1))
}

/// The line that renders one parameter: `{"name": <kind>},` and a line end.
pub open spec fn schema_line(param: Seq<char>, kind: ToolSchema) -> Seq<char> {
    "{\""@ + param + "\": "@ + kind.tag() + "},\n"@
}

/// The lines of all parameters, in the schema's order.
pub open spec fn schema_block(schema: Seq<(Seq<char>, ToolSchema)>) -> Seq<char>
    decreases schema.len(),
{
    if schema.len() == 0 {
        Seq::empty()
    } else {
        schema_block(schema.drop_last()) + schema_line(schema.last().0, schema.last().1)
    }
}

impl ToolView {
    /// What precedes the parameter lines in a rendering.
    pub open spec fn rendering_head(self) -> Seq<char> {
        "Name: "@ + self.name + "\n"@ + "Description: "@ + self.description + "\n"@
            + "Schema: [\n "@
    }

    /// The whole rendering: the name, the description, and the schema block
    /// with one line for each parameter.
    pub open spec fn rendering(self) -> Seq<char> {
        self.rendering_head() + schema_block(self.schema) + "\n]\n"@
    }
}

/// A tool that a model may be told about. A value of this type is made once
/// and then only read.
#[derive(Clone, Debug, PartialEq, Eq)]
pub struct Tool {
    name: String,
    description: String,
    schema: Vec<(String, ToolSchema)>,
    handler: String,
}

impl View for Tool {
    type V = ToolView;

    closed spec fn view(&self) -> ToolView {
        ToolView {
            name: self.name@,
            description: self.description@,
            schema: schema_view(self.schema@),
            handler: self.handler@,
        }
    }
}

impl Tool {
    /// A descriptor with the given name, description, parameters and handler.
    pub fn new(
        name: String,
        desc: String,
        schema: Vec<(String, ToolSchema)>,
        handler: String,
    ) -> (tool: Tool)
        ensures
            tool@ == (ToolView {
                name: name@,
                description: desc@,
                schema: schema_view(schema@),
                handler: handler@,
            }),
    {
        Tool { name, description: desc, schema, handler }
    }

    /// The tool's name.
    pub fn name(&self) -> (name: &String)
        ensures
            name@ == self@.name,
    {
        &self.name
    }

    /// What the tool does, in words.
    pub fn description(&self) -> (description: &String)
        ensures
            description@ == self@.description,
    {
        &self.description
    }

    /// The tool's parameters, each with the kind of value it takes.
    pub fn schema(&self) -> (schema: &Vec<(String, ToolSchema)>)
        ensures
            schema_view(schema@) == self@.schema,
    {
        &self.schema
    }

    /// The name of the script function that carries the tool out.
    pub fn handler(&self) -> (handler: &String)
        ensures
            handler@ == self@.handler,
    {
        &self.handler
    }

    /// The descriptor written out: a `Name:` line, a `Description:` line and
    /// a `Schema:` block that lists each parameter as `{"name": <kind>},`.
    /// The name and the description stand in it letter for letter.
    pub fn describe(&self) -> (text: String)
        ensures
            text@ == self@.rendering(),
            occurs_in(self@.name, text@),
            occurs_in(self@.description, text@),
    {
        let mut text = String::from_str("Name: ");
        text.append(self.name.as_str());
        text.append("\n");
        text.append("Description: ");
        text.append(self.description.as_str());
        text.append("\n");
        text.append("Schema: [\n ");
        assert(text@ =~= self@.rendering_head());
        let n: usize = self.schema.len();
        let mut i: usize = 0;
        while i < n
            invariant
                i <= n,
                n == self.schema@.len(),
                self@.schema == schema_view(self.schema@),
                text@ =~= self@.rendering_head() + schema_block(self@.schema.take(i as int)),
            decreases n - i,
        {
            let entry = &self.schema[i];
            let tag = entry.1.render();
            text.append("{\"");
            text.append(entry.0.as_str());
            text.append("\": ");
            text.append(tag.as_str());
            text.append("},\n");
            proof {
                let shown = self@.schema.take(i + 1);
                assert(shown.drop_last() =~= self@.schema.take(i as int));
                assert(shown.last() == (entry.0@, entry.1));
            }
            i += 1;
        }
        assert(self@.schema.take(n as int) =~= self@.schema);
        text.append("\n]\n");
        proof {
            lemma_rendering_shows_name_and_description(self@);
        }
        text
    }
}

/// Whatever the name, the description and the parameters of a tool are, its
/// rendering holds the name and the description letter for letter.
pub proof fn lemma_rendering_shows_name_and_description(tool: ToolView)
    ensures
        occurs_in(tool.name, tool.rendering()),
        occurs_in(tool.description, tool.rendering()),
{
    let tail = schema_block(tool.schema) + "\n]\n"@;
    let after_name = "\n"@ + "Description: "@ + tool.description + "\n"@ + "Schema: [\n "@ + tail;
    assert("Name: "@ + tool.name + after_name =~= tool.rendering());
    let before_description = "Name: "@ + tool.name + "\n"@ + "Description: "@;
    let after_description = "\n"@ + "Schema: [\n "@ + tail;
    assert(before_description + tool.description + after_description =~= tool.rendering());
}

} // verus!
