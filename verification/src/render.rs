//! The text of a stub document, in the host's interface-declaration syntax.
//!
//! A document is written as one `import` line for each host module it refers
//! to, an empty line behind them where there are any, and the blocks in their
//! order. A block is the line `def name(p: T, q: U) -> R: ...` and an empty
//! line behind it.

use crate::stub::{
    StubBlock, StubBlockView, StubDocument, StubDocumentView, StubParameter, StubParameterView,
};
use vstd::prelude::*;

verus! {

/// The text of one parameter: its name, a colon, and the token of its type.
pub open spec fn render_parameter(p: StubParameterView) -> Seq<char> {
    p.name + ": "@ + p.token
}

/// The text of a parameter list: the parameters in order, with a comma and a
/// space between one and the next.
pub open spec fn render_parameters(ps: Seq<StubParameterView>) -> Seq<char>
    decreases ps.len(),
{
    if ps.len() == 0 {
        Seq::empty()
    } else if ps.len() == 1 {
        render_parameter(ps[0])
    } else {
        render_parameters(ps.drop_last()) + ", "@ + render_parameter(ps.last())
    }
}

/// The text of one block.
pub open spec fn render_block(b: StubBlockView) -> Seq<char> {
    "def "@ + b.name + "("@ + render_parameters(b.parameters) + ") -> "@ + b.return_token
        + ": ...\n\n"@
}

/// The text of the blocks, one behind the other.
pub open spec fn render_blocks(bs: Seq<StubBlockView>) -> Seq<char>
    decreases bs.len(),
{
    if bs.len() == 0 {
        Seq::empty()
    } else {
        render_blocks(bs.drop_last()) + render_block(bs.last())
    }
}

/// The text of the import lines, one for each module.
pub open spec fn render_imports(ms: Seq<Seq<char>>) -> Seq<char>
    decreases ms.len(),
{
    if ms.len() == 0 {
        Seq::empty()
    } else {
        render_imports(ms.drop_last()) + "import "@ + ms.last() + "\n"@
    }
}

/// The empty line that parts the import lines from the blocks, where there
/// are import lines.
pub open spec fn render_gap(ms: Seq<Seq<char>>) -> Seq<char> {
    if ms.len() == 0 {
        Seq::empty()
    } else {
        "\n"@
    }
}

/// The text of a whole document.
pub open spec fn render_document(d: StubDocumentView) -> Seq<char> {
    render_imports(d.imports) + render_gap(d.imports) + render_blocks(d.blocks)
}

/// Writes a parameter list.
fn parameters_text(parameters: &Vec<StubParameter>) -> (text: String)
    ensures
        text@ == render_parameters(parameters@.map_values(|p: StubParameter| p@)),
{
    let ghost views = parameters@.map_values(|p: StubParameter| p@);
    let mut text = String::new();
    let mut j: usize = 0;
    while j < parameters.len()
        invariant
            j <= parameters.len(),
            views == parameters@.map_values(|p: StubParameter| p@),
            text@ == render_parameters(views.take(j as int)),
        decreases parameters.len() - j,
    {
        let ghost before = text@;
        if j > 0 {
            text.append(", ");
        }
        let parameter = &parameters[j];
        text.append(parameter.name.as_str());
        text.append(": ");
        text.append(parameter.token.as_str());
        proof {
            let next = views.take(j + 1);
            assert(next.drop_last() =~= views.take(j as int));
            assert(next.last() == parameter@);
            if j > 0 {
                assert(text@ =~= before + ", "@ + render_parameter(parameter@));
            } else {
                assert(before =~= Seq::<char>::empty());
                assert(text@ =~= render_parameter(parameter@));
            }
        }
        j += 1;
    }
    assert(views.take(parameters.len() as int) =~= views);
    text
}

impl StubBlock {
    /// The text of the block.
    pub fn text(&self) -> (text: String)
        ensures
            text@ == render_block(self@),
    {
        let mut text = String::from_str("def ");
        text.append(self.name.as_str());
        text.append("(");
        let parameters = parameters_text(&self.parameters);
        text.append(parameters.as_str());
        text.append(") -> ");
        text.append(self.return_token.as_str());
        text.append(": ...\n\n");
        text
    }
}

impl StubDocument {
    /// The text of the document. It is a function of the document alone, so
    /// that the same document is always written as the same bytes.
    pub fn text(&self) -> (text: String)
        ensures
            text@ == render_document(self@),
    {
        let ghost imports = self@.imports;
        let ghost blocks = self@.blocks;
        let mut text = String::new();
        let mut i: usize = 0;
        while i < self.imports.len()
            invariant
                i <= self.imports.len(),
                imports == self.imports@.map_values(|m: String| m@),
                text@ == render_imports(imports.take(i as int)),
            decreases self.imports.len() - i,
        {
            let ghost before = text@;
            text.append("import ");
            text.append(self.imports[i].as_str());
            text.append("\n");
            proof {
                let next = imports.take(i + 1);
                assert(next.drop_last() =~= imports.take(i as int));
                assert(next.last() == self.imports[i as int]@);
                assert(text@ =~= before + "import "@ + next.last() + "\n"@);
            }
            i += 1;
        }
        assert(imports.take(self.imports.len() as int) =~= imports);
        if self.imports.len() > 0 {
            text.append("\n");
        }
        let ghost head = text@;
        assert(head =~= render_imports(imports) + render_gap(imports));
        let mut k: usize = 0;
        while k < self.blocks.len()
            invariant
                k <= self.blocks.len(),
                blocks == self.blocks@.map_values(|b: StubBlock| b@),
                text@ == head + render_blocks(blocks.take(k as int)),
            decreases self.blocks.len() - k,
        {
            let ghost before = text@;
            let block = self.blocks[k].text();
            text.append(block.as_str());
            proof {
                let next = blocks.take(k + 1);
                assert(next.drop_last() =~= blocks.take(k as int));
                assert(next.last() == self.blocks[k as int]@);
                assert(text@ =~= head + render_blocks(next));
            }
            k += 1;
        }
        assert(blocks.take(self.blocks.len() as int) =~= blocks);
        text
    }
}

} // verus!
