//! Shader source: the record declarations and the binding variables that
//! go before the code that uses them.

use vstd::prelude::*;
use crate::uniform_binding::GlslUniformVar;

verus! {

/// The name of the vertex stage's entry point.
pub const ENTRY_POINT_VERTEX: &'static str = "vertex";

/// The name of the fragment stage's entry point.
pub const ENTRY_POINT_FRAGMENT: &'static str = "fragment";

/// A complete shader source.
#[derive(Debug)]
pub struct Shader {
    code: String,
}

/// The type declarations that a list of variables needs: that of each
/// variable that has one, in order, each followed by a line break.
pub open spec fn struct_texts(vars: Seq<GlslUniformVar>) -> Seq<char>
    decreases vars.len(),
{
    if vars.len() == 0 {
        Seq::empty()
    } else {
        struct_texts(vars.drop_last()) + match vars.last().uniform.type_struct_str {
            Some(text) => text@ + "\n"@,
            None => Seq::empty(),
        }
    }
}

/// The declarations of a list of variables, each closed by a semicolon and
/// a line break.
pub open spec fn var_texts(vars: Seq<GlslUniformVar>) -> Seq<char>
    decreases vars.len(),
{
    if vars.len() == 0 {
        Seq::empty()
    } else {
        var_texts(vars.drop_last()) + vars.last().text() + ";\n"@
    }
}

/// What a bind group adds to shader source: the type declarations that its
/// variables need, then the variables.
pub open spec fn uniforms_text(vars: Seq<GlslUniformVar>) -> Seq<char> {
    struct_texts(vars) + var_texts(vars)
}

/// A shader source with the declarations of its vertex and instance
/// records before it.
pub open spec fn preprocessed_text(
    vertex_struct: Seq<char>,
    instance_struct: Seq<char>,
    source: Seq<char>,
) -> Seq<char> {
    vertex_struct + "\n"@ + instance_struct + "\n"@ + source
}

/// A complete shader source: the declarations of the vertex and instance
/// records, what the two bind groups add, and the code.
pub open spec fn shader_text(
    vertex_struct: Seq<char>,
    instance_struct: Seq<char>,
    group0: Seq<GlslUniformVar>,
    group1: Seq<GlslUniformVar>,
    source: Seq<char>,
) -> Seq<char> {
    vertex_struct + "\n"@ + instance_struct + "\n"@ + uniforms_text(group0) + uniforms_text(group1)
        + source
}

/// Puts the declarations of the vertex and instance records before a
/// shader source.
pub fn preprocess_shader(vertex_struct: &str, instance_struct: &str, source: &str) -> (out: String)
    ensures
        out@ == preprocessed_text(vertex_struct@, instance_struct@, source@),
{
    let mut out = String::new();
    out.append(vertex_struct);
    out.append("\n");
    out.append(instance_struct);
    out.append("\n");
    out.append(source);
    assert(out@ =~= preprocessed_text(vertex_struct@, instance_struct@, source@));
    out
}

impl Shader {
    /// Composes a shader from the declarations of its records, the
    /// variables of its two bind groups, and its code.
    pub fn new(
        vertex_struct: &str,
        instance_struct: &str,
        group0: &Vec<GlslUniformVar>,
        group1: &Vec<GlslUniformVar>,
        source: &str,
    ) -> (shader: Shader)
        ensures
            shader@ == shader_text(
                vertex_struct@,
                instance_struct@,
                group0@,
                group1@,
                source@,
            ),
    {
        Shader {
            code: Shader::preprocess_shader(
                vertex_struct,
                instance_struct,
                group0,
                group1,
                source,
            ),
        }
    }

    /// The complete source.
    pub fn code(&self) -> (s: &str)
        ensures
            s@ == self@,
    {
        self.code.as_str()
    }

    /// The complete source of a shader: the vertex record's declaration,
    /// the instance record's, what each bind group adds, and the code, in
    /// this order.
    pub fn preprocess_shader(
        vertex_struct: &str,
        instance_struct: &str,
        group0: &Vec<GlslUniformVar>,
        group1: &Vec<GlslUniformVar>,
        source: &str,
    ) -> (out: String)
        ensures
            out@ == shader_text(vertex_struct@, instance_struct@, group0@, group1@, source@),
    {
        let mut out = String::new();
        out.append(vertex_struct);
        out.append("\n");
        out.append(instance_struct);
        out.append("\n");
        Shader::append_uniforms(group0, &mut out);
        Shader::append_uniforms(group1, &mut out);
        out.append(source);
        assert(out@ =~= shader_text(vertex_struct@, instance_struct@, group0@, group1@, source@));
        out
    }

    /// Appends what a bind group adds to shader source: first the type
    /// declaration of every variable that has one, then every variable.
    pub fn append_uniforms(vars: &Vec<GlslUniformVar>, out: &mut String)
        ensures
            final(out)@ == old(out)@ + uniforms_text(vars@),
    {
        let mut i: usize = 0;
        assert(vars@.subrange(0, 0) =~= Seq::empty());
        assert(out@ =~= old(out)@ + struct_texts(vars@.subrange(0, 0)));
        while i < vars.len()
            invariant
                i <= vars.len(),
                out@ == old(out)@ + struct_texts(vars@.subrange(0, i as int)),
            decreases vars.len() - i,
        {
            let ghost before = out@;
            match &vars[i].uniform.type_struct_str {
                Some(text) => {
                    out.append(text.as_str());
                    out.append("\n");
                },
                None => {},
            }
            proof {
                let prefix = vars@.subrange(0, i + 1);
                assert(prefix.drop_last() =~= vars@.subrange(0, i as int));
                assert(prefix.last() == vars@[i as int]);
                assert(out@ =~= old(out)@ + struct_texts(prefix));
            }
            i = i + 1;
        }
        assert(vars@.subrange(0, i as int) =~= vars@);
        let ghost middle = out@;
        let mut k: usize = 0;
        assert(out@ =~= middle + var_texts(vars@.subrange(0, 0)));
        while k < vars.len()
            invariant
                k <= vars.len(),
                middle == old(out)@ + struct_texts(vars@),
                out@ == middle + var_texts(vars@.subrange(0, k as int)),
            decreases vars.len() - k,
        {
            let text = vars[k].to_string();
            out.append(text.as_str());
            out.append(";\n");
            proof {
                let prefix = vars@.subrange(0, k + 1);
                assert(prefix.drop_last() =~= vars@.subrange(0, k as int));
                assert(prefix.last() == vars@[k as int]);
                assert(out@ =~= middle + var_texts(prefix));
            }
            k = k + 1;
        }
        assert(vars@.subrange(0, k as int) =~= vars@);
        assert(out@ =~= old(out)@ + uniforms_text(vars@));
    }
}

impl View for Shader {
    type V = Seq<char>;

    closed spec fn view(&self) -> Seq<char> {
        self.code@
    }
}

} // verus!
