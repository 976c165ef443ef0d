use vstd::prelude::*;

use crate::outside::{replace_all, replaced};
use crate::task::text_eq;

verus! {

/// A prompt template of the content generator. Each name in `variables`
/// stands in `prompt_template` as `{name}`.
#[derive(Debug, Clone)]
pub struct ContentTemplate {
    pub name: String,
    pub prompt_template: String,
    pub variables: Vec<String>,
    pub content_type: String,
    pub description: String,
}

/// The template used where none is stored under `name`: it asks for content
/// built from the single variable `content`.
pub fn default_template(name: &str) -> (r: ContentTemplate)
    ensures
        r.name@ == name@,
        r.prompt_template@ == "Generate content based on the following input:\n\n{content}\n\nPlease provide a well-structured response."@,
        r.variables@.len() == 1,
        r.variables@[0]@ == "content"@,
        r.content_type@ == "article"@,
        r.description@ == "Default template for content generation"@,
{
    ContentTemplate {
        name: String::from_str(name),
        prompt_template: String::from_str(
            "Generate content based on the following input:\n\n{content}\n\nPlease provide a well-structured response.",
        ),
        variables: vec![String::from_str("content")],
        content_type: String::from_str("article"),
        description: String::from_str("Default template for content generation"),
    }
}

/// The value bound to `key`: that of its first binding.
pub open spec fn lookup(vars: Seq<(String, String)>, key: Seq<char>) -> Option<String>
    decreases vars.len(),
{
    if vars.len() == 0 {
        None
    } else if vars[0].0@ == key {
        Some(vars[0].1)
    } else {
        lookup(vars.drop_first(), key)
    }
}

/// `{name}`, the placeholder of a variable.
pub open spec fn placeholder(name: Seq<char>) -> Seq<char> {
    "{"@ + name + "}"@
}

/// `prompt` after the variables `names`, taken in order, have each had
/// their placeholder replaced by their bound value; an unbound variable is
/// left in place.
pub open spec fn filled(prompt: Seq<char>, names: Seq<String>, vars: Seq<(String, String)>) -> Seq<
    char,
>
    decreases names.len(),
{
    if names.len() == 0 {
        prompt
    } else {
        let before = filled(prompt, names.drop_last(), vars);
        match lookup(vars, names.last()@) {
            Some(v) => replaced(before, placeholder(names.last()@), v@),
            None => before,
        }
    }
}

/// The value bound to `key` in `vars`, if any.
///
/// Variables come as a list of (name, value) pairs in which the first
/// binding of a name counts, rather than as a hash map keyed by name: with
/// string keys a map's lookup comes with no usable specification, while over
/// a list the lookup is proved exactly.
pub fn lookup_variable(vars: &Vec<(String, String)>, key: &str) -> (r: Option<String>)
    ensures
        r == lookup(vars@, key@),
{
    let mut i: usize = 0;
    assert(vars@.subrange(0, vars@.len() as int) =~= vars@);
    while i < vars.len()
        invariant
            i <= vars@.len(),
            lookup(vars@, key@) == lookup(vars@.subrange(i as int, vars@.len() as int), key@),
        decreases vars@.len() - i,
    {
        let ghost rest = vars@.subrange(i as int, vars@.len() as int);
        if text_eq(vars[i].0.as_str(), key) {
            return Some(vars[i].1.clone());
        }
        assert(rest.drop_first() =~= vars@.subrange(i as int + 1, vars@.len() as int));
        i = i + 1;
    }
    None
}

/// The placeholder of a variable.
pub fn placeholder_of(name: &str) -> (r: String)
    ensures
        r@ == placeholder(name@),
{
    let mut r = String::from_str("{");
    r.append(name);
    r.append("}");
    r
}

/// The prompt of `template` with each of its variables replaced by the
/// value bound in `variables`.
pub fn apply_template(template: &ContentTemplate, variables: &Vec<(String, String)>) -> (r: String)
    ensures
        r@ == filled(template.prompt_template@, template.variables@, variables@),
{
    let names = &template.variables;
    let mut prompt = template.prompt_template.clone();
    let mut i: usize = 0;
    while i < names.len()
        invariant
            i <= names@.len(),
            prompt@ == filled(
                template.prompt_template@,
                names@.subrange(0, i as int),
                variables@,
            ),
        decreases names@.len() - i,
    {
        assert(names@.subrange(0, i as int + 1).drop_last() =~= names@.subrange(0, i as int));
        match lookup_variable(variables, names[i].as_str()) {
            Some(value) => {
                let ph = placeholder_of(names[i].as_str());
                prompt = replace_all(prompt.as_str(), ph.as_str(), value.as_str());
            },
            None => {},
        }
        i = i + 1;
    }
    assert(names@.subrange(0, names@.len() as int) =~= names@);
    prompt
}

/// `<output_dir>/<content_type>_<timestamp>.txt`, where generated content is written.
pub fn generated_file_path(output_dir: &str, content_type: &str, timestamp: &str) -> (r: String)
    ensures
        r@ == output_dir@ + "/"@ + content_type@ + "_"@ + timestamp@ + ".txt"@,
{
    let mut r = String::from_str(output_dir);
    r.append("/");
    r.append(content_type);
    r.append("_");
    r.append(timestamp);
    r.append(".txt");
    r
}

/// `Generated <content_type> content`, the title of generated content.
pub fn generated_title(content_type: &str) -> (r: String)
    ensures
        r@ == "Generated "@ + content_type@ + " content"@,
{
    let mut r = String::from_str("Generated ");
    r.append(content_type);
    r.append(" content");
    r
}

} // verus!
