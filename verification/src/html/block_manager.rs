//! The block state machine: a stack of open regions with the closing
//! discipline renderers rely on.

use vstd::prelude::*;

use crate::html::tag_generator::{generate_block_end_tag, generate_block_start_tag,
    spec_block_end_tag, spec_block_start_tag};
use crate::node::block::{BlockParams, BlockParamsM, BlockType};
use crate::node::clone_params;
use crate::node::midashi::MidashiLevel;

verus! {

/// One open region.
#[derive(Debug, Clone, PartialEq)]
pub struct BlockContext {
    /// Kind of the region.
    pub block_type: BlockType,
    /// Its parameters.
    pub params: BlockParams,
}

/// Model of one open region.
pub open spec fn ctx_model(c: BlockContext) -> (BlockType, BlockParamsM) {
    (c.block_type, c.params.model())
}

/// Models of the stack, bottom first.
pub open spec fn stack_model(s: Seq<BlockContext>) -> Seq<(BlockType, BlockParamsM)>
    decreases s,
{
    if s.len() == 0 {
        Seq::empty()
    } else {
        stack_model(s.drop_last()).push(ctx_model(s.last()))
    }
}

/// `stack_model` maps the stack pointwise.
pub broadcast proof fn lemma_stack_model(s: Seq<BlockContext>)
    ensures
        #![trigger stack_model(s)]
        stack_model(s).len() == s.len(),
        forall|i: int| 0 <= i < s.len() ==> stack_model(s)[i] == ctx_model(s[i]),
    decreases s.len(),
{
    if s.len() > 0 {
        lemma_stack_model(s.drop_last());
    }
}

/// The anchor-number step of a heading level: coarser levels step further,
/// so numbers sort consistently across mixed levels.
pub open spec fn spec_midashi_step(level: MidashiLevel) -> u64 {
    match level {
        MidashiLevel::O => 100u64,
        MidashiLevel::Naka => 10u64,
        MidashiLevel::Ko => 1u64,
    }
}

/// Whether a region family member must close before `new_bt` opens: the
/// indent, bottom-aligned and hanging-indent kinds exclude one another.
pub open spec fn spec_related(new_bt: BlockType, c: (BlockType, BlockParamsM)) -> bool {
    c.0 == new_bt || c.0 == BlockType::Burasage || (new_bt == BlockType::Burasage && c.0
        == BlockType::Jisage)
}

/// Last stack index satisfying `spec_related`, or `-1`.
pub open spec fn spec_rpos_related(
    s: Seq<(BlockType, BlockParamsM)>,
    new_bt: BlockType,
    i: int,
) -> int
    decreases i + 1,
{
    if i < 0 {
        -1
    } else if spec_related(new_bt, s[i]) {
        i
    } else {
        spec_rpos_related(s, new_bt, i - 1)
    }
}

/// Last stack index of an inline (not block-scoped) region, or `-1`.
pub open spec fn spec_rpos_inline(s: Seq<(BlockType, BlockParamsM)>, i: int) -> int
    decreases i + 1,
{
    if i < 0 {
        -1
    } else if !s[i].1.is_block {
        i
    } else {
        spec_rpos_inline(s, i - 1)
    }
}

/// Last stack index closed by an end of kind `bt`: the kind itself, or a
/// hanging indent when an indent closes.
pub open spec fn spec_rpos_close(s: Seq<(BlockType, BlockParamsM)>, bt: BlockType, i: int) -> int
    decreases i + 1,
{
    if i < 0 {
        -1
    } else if s[i].0 == bt || (bt == BlockType::Jisage && s[i].0 == BlockType::Burasage) {
        i
    } else {
        spec_rpos_close(s, bt, i - 1)
    }
}

/// The stack of open regions, and the heading anchor counter.
#[derive(Debug, Clone)]
pub struct BlockManager {
    stack: Vec<BlockContext>,
    midashi_id_counter: u64,
}

impl BlockManager {
    /// The model of the stack, bottom first.
    pub closed spec fn stack(&self) -> Seq<(BlockType, BlockParamsM)> {
        stack_model(self.stack@)
    }

    /// The anchor counter.
    pub closed spec fn counter(&self) -> u64 {
        self.midashi_id_counter
    }

    /// An empty manager.
    pub fn new() -> (r: Self)
        ensures
            r.stack() == Seq::<(BlockType, BlockParamsM)>::empty(),
            r.counter() == 0,
    {
        let r = BlockManager { stack: Vec::new(), midashi_id_counter: 0 };
        proof {
            assert(r.stack() =~= Seq::<(BlockType, BlockParamsM)>::empty());
        }
        r
    }

    /// How many regions are open.
    pub fn stack_len(&self) -> (r: usize)
        ensures
            r == self.stack().len(),
    {
        proof {
            lemma_stack_model(self.stack@);
        }
        self.stack.len()
    }

    /// Whether any region is open.
    pub fn has_blocks(&self) -> (r: bool)
        ensures
            r == (self.stack().len() > 0),
    {
        proof {
            lemma_stack_model(self.stack@);
        }
        self.stack.len() > 0
    }

    /// Open a region.
    pub fn push(&mut self, block_type: BlockType, params: BlockParams)
        ensures
            final(self).stack() == old(self).stack().push((block_type, params.model())),
            final(self).counter() == old(self).counter(),
    {
        let ghost before = self.stack@;
        self.stack.push(BlockContext { block_type, params });
        proof {
            assert(self.stack@.drop_last() =~= before);
        }
    }

    /// Close the innermost region, if any.
    pub fn pop(&mut self) -> (r: Option<BlockContext>)
        ensures
            final(self).counter() == old(self).counter(),
            old(self).stack().len() == 0 ==> (r is None && final(self).stack() == old(
                self,
            ).stack()),
            old(self).stack().len() > 0 ==> (r is Some && ctx_model(r->0) == old(
                self,
            ).stack().last() && final(self).stack() == old(self).stack().drop_last()),
    {
        proof {
            lemma_stack_model(self.stack@);
        }
        let ghost before = self.stack@;
        let r = self.stack.pop();
        proof {
            if before.len() > 0 {
                assert(self.stack@ =~= before.drop_last());
            }
        }
        r
    }

    /// Close the region at a stack position.
    pub fn remove(&mut self, pos: usize) -> (r: BlockContext)
        requires
            pos < old(self).stack().len(),
        ensures
            final(self).counter() == old(self).counter(),
            ctx_model(r) == old(self).stack()[pos as int],
            final(self).stack() == old(self).stack().remove(pos as int),
    {
        proof {
            lemma_stack_model(self.stack@);
        }
        let ghost before = self.stack@;
        let r = self.stack.remove(pos);
        proof {
            lemma_stack_model(self.stack@);
            assert(self.stack@ =~= before.remove(pos as int));
            assert(final(self).stack() =~= stack_model(before).remove(pos as int));
        }
        r
    }

    /// The region at a stack position.
    pub fn get(&self, pos: usize) -> (r: &BlockContext)
        requires
            pos < self.stack().len(),
        ensures
            ctx_model(*r) == self.stack()[pos as int],
    {
        proof {
            lemma_stack_model(self.stack@);
        }
        &self.stack[pos]
    }


    /// Last stack position an end of kind `bt` closes, if any.
    fn rpos_close_exec(&self, bt: &BlockType) -> (r: Option<usize>)
        ensures
            match r {
                Some(p) => p < self.stack().len() && spec_rpos_close(
                    self.stack(),
                    *bt,
                    self.stack().len() - 1,
                ) == p as int,
                None => spec_rpos_close(self.stack(), *bt, self.stack().len() - 1) == -1,
            },
    {
        proof {
            lemma_stack_model(self.stack@);
        }
        let mut i: usize = self.stack.len();
        while i > 0
            invariant
                i <= self.stack@.len(),
                spec_rpos_close(self.stack(), *bt, self.stack().len() - 1) == spec_rpos_close(
                    self.stack(),
                    *bt,
                    i as int - 1,
                ),
                self.stack().len() == self.stack@.len(),
                forall|k: int| 0 <= k < self.stack@.len() ==> self.stack()[k] == ctx_model(
                    self.stack@[k],
                ),
            decreases i,
        {
            let c = &self.stack[i - 1];
            let hit = c.block_type == *bt || (matches!(bt, BlockType::Jisage) && matches!(
                c.block_type,
                BlockType::Burasage,
            ));
            if hit {
                return Some(i - 1);
            }
            i -= 1;
        }
        None
    }

    /// Last stack position of an inline region, if any.
    fn rpos_inline_exec(&self) -> (r: Option<usize>)
        ensures
            match r {
                Some(p) => p < self.stack().len() && !self.stack()[p as int].1.is_block,
                None => forall|k: int| 0 <= k < self.stack().len()
                    ==> (#[trigger] self.stack()[k]).1.is_block,
            },
    {
        proof {
            lemma_stack_model(self.stack@);
        }
        let mut i: usize = self.stack.len();
        while i > 0
            invariant
                i <= self.stack@.len(),
                forall|k: int| i <= k < self.stack().len()
                    ==> (#[trigger] self.stack()[k]).1.is_block,
                self.stack().len() == self.stack@.len(),
                forall|k: int| 0 <= k < self.stack@.len() ==> self.stack()[k] == ctx_model(
                    self.stack@[k],
                ),
            decreases i,
        {
            if !self.stack[i - 1].params.is_block {
                return Some(i - 1);
            }
            i -= 1;
        }
        None
    }

    /// Last stack position of a region related to `new_bt`, if any.
    fn rpos_related_exec(&self, new_bt: &BlockType) -> (r: Option<usize>)
        ensures
            match r {
                Some(p) => p < self.stack().len() && spec_related(
                    *new_bt,
                    self.stack()[p as int],
                ),
                None => forall|k: int| 0 <= k < self.stack().len() ==> !spec_related(
                    *new_bt,
                    #[trigger] self.stack()[k],
                ),
            },
    {
        proof {
            lemma_stack_model(self.stack@);
        }
        let mut i: usize = self.stack.len();
        while i > 0
            invariant
                i <= self.stack@.len(),
                forall|k: int| i <= k < self.stack().len() ==> !spec_related(
                    *new_bt,
                    #[trigger] self.stack()[k],
                ),
                self.stack().len() == self.stack@.len(),
                forall|k: int| 0 <= k < self.stack@.len() ==> self.stack()[k] == ctx_model(
                    self.stack@[k],
                ),
            decreases i,
        {
            let c = &self.stack[i - 1];
            let hit = c.block_type == *new_bt || matches!(c.block_type, BlockType::Burasage) || (
            matches!(new_bt, BlockType::Burasage) && matches!(c.block_type, BlockType::Jisage));
            if hit {
                return Some(i - 1);
            }
            i -= 1;
        }
        None
    }

    /// Close regions down to a length, innermost first.
    pub fn pop_to_length(&mut self, target_len: usize) -> (r: Vec<(BlockType, BlockParams)>)
        ensures
            final(self).counter() == old(self).counter(),
            target_len >= old(self).stack().len() ==> (final(self).stack() == old(
                self,
            ).stack() && r@.len() == 0),
            target_len < old(self).stack().len() ==> (final(self).stack() == old(
                self,
            ).stack().subrange(0, target_len as int) && r@.len() == old(self).stack().len()
                - target_len && (forall|k: int|
                0 <= k < r@.len() ==> ((#[trigger] r@[k]).0, r@[k].1.model()) == old(
                    self,
                ).stack()[old(self).stack().len() - 1 - k])),
    {
        proof {
            lemma_stack_model(self.stack@);
        }
        let ghost orig = self.stack();
        let mut r: Vec<(BlockType, BlockParams)> = Vec::new();
        while self.stack.len() > target_len
            invariant
                self.counter() == old(self).counter(),
                stack_model(self.stack@).len() == self.stack@.len(),
                target_len >= orig.len() ==> (self.stack() == orig && r@.len() == 0),
                target_len < orig.len() ==> (self.stack().len() >= target_len && self.stack()
                    == orig.subrange(0, self.stack().len() as int) && r@.len() == orig.len()
                    - self.stack().len() && (forall|k: int|
                    0 <= k < r@.len() ==> ((#[trigger] r@[k]).0, r@[k].1.model()) == orig[
                    orig.len() - 1 - k])),
            decreases self.stack@.len(),
        {
            proof {
                lemma_stack_model(self.stack@);
            }
            let ghost st_before = self.stack();
            let ghost vec_before = self.stack@;
            match self.stack.pop() {
                Some(ctx) => {
                    let ghost cm = ctx_model(ctx);
                    r.push((ctx.block_type, ctx.params));
                    proof {
                        assert(self.stack@ =~= vec_before.drop_last());
                        lemma_stack_model(self.stack@);
                        lemma_stack_model(vec_before);
                        assert(stack_model(self.stack@) =~= st_before.drop_last());
                        assert(st_before.drop_last() =~= orig.subrange(
                            0,
                            st_before.len() - 1,
                        ));
                        assert(cm == st_before.last());
                        assert(cm == orig[st_before.len() - 1]);
                    }
                },
                None => {},
            }
        }
        proof {
            lemma_stack_model(self.stack@);
        }
        r
    }

    /// The wrap width and first-line text indent of the innermost hanging
    /// indent, where one is open.
    pub fn find_burasage_context(&self) -> (r: Option<(u32, i64)>)
        ensures
            match r {
                Some(wt) => (exists|i: int|
                    0 <= i < self.stack().len() && (#[trigger] self.stack()[i]).0
                        == BlockType::Burasage),
                None => (forall|i: int|
                    0 <= i < self.stack().len() ==> (#[trigger] self.stack()[i]).0
                        != BlockType::Burasage),
            },
    {
        proof {
            lemma_stack_model(self.stack@);
        }
        let mut i: usize = 0;
        while i < self.stack.len()
            invariant
                i <= self.stack@.len(),
                forall|k: int| 0 <= k < i ==> (#[trigger] stack_model(self.stack@)[k]).0
                    != BlockType::Burasage,
                stack_model(self.stack@).len() == self.stack@.len(),
                forall|k: int| 0 <= k < self.stack@.len() ==> stack_model(self.stack@)[k]
                    == ctx_model(self.stack@[k]),
            decreases self.stack@.len() - i,
        {
            let ctx = &self.stack[i];
            if matches!(ctx.block_type, BlockType::Burasage) {
                let wrap: u32 = match ctx.params.wrap_width {
                    Some(w) => w,
                    None => 1,
                };
                let width: u32 = match ctx.params.width {
                    Some(w) => w,
                    None => 0,
                };
                let ti: i64 = width as i64 - wrap as i64;
                proof {
                    assert((self.stack()[i as int]).0 == BlockType::Burasage);
                }
                return Some((wrap, ti));
            }
            i += 1;
        }
        None
    }

    /// Close every inline (not block-scoped) region, innermost first.
    pub fn close_inline_blocks(&mut self) -> (r: Vec<(BlockType, BlockParams)>)
        ensures
            final(self).counter() == old(self).counter(),
            forall|i: int| 0 <= i < final(self).stack().len()
                ==> (#[trigger] final(self).stack()[i]).1.is_block,
    {
        let mut r: Vec<(BlockType, BlockParams)> = Vec::new();
        loop
            invariant
                self.counter() == old(self).counter(),
            decreases self.stack().len(),
        {
            match self.rpos_inline_exec() {
                Some(p) => {
                    let ctx = self.remove(p);
                    r.push((ctx.block_type, ctx.params));
                },
                None => {
                    return r;
                },
            }
        }
    }

    /// Before a region of the indent family opens, close every open region
    /// of the same or a related kind; closed hanging indents are not
    /// reported, as they render per line.
    pub fn close_related_blocks(&mut self, new_block_type: &BlockType) -> (r: Vec<(
        BlockType,
        BlockParams,
    )>)
        ensures
            final(self).counter() == old(self).counter(),
            (*new_block_type == BlockType::Jisage || *new_block_type == BlockType::Chitsuki
                || *new_block_type == BlockType::Burasage) ==> (forall|i: int|
                0 <= i < final(self).stack().len() ==> !spec_related(
                    *new_block_type,
                    #[trigger] final(self).stack()[i],
                )),
            !(*new_block_type == BlockType::Jisage || *new_block_type == BlockType::Chitsuki
                || *new_block_type == BlockType::Burasage) ==> (final(self).stack() == old(
                self,
            ).stack() && r@.len() == 0),
    {
        let mut r: Vec<(BlockType, BlockParams)> = Vec::new();
        let family = matches!(new_block_type, BlockType::Jisage) || matches!(
            new_block_type,
            BlockType::Chitsuki,
        ) || matches!(new_block_type, BlockType::Burasage);
        if !family {
            return r;
        }
        loop
            invariant
                self.counter() == old(self).counter(),
                *new_block_type == BlockType::Jisage || *new_block_type == BlockType::Chitsuki
                    || *new_block_type == BlockType::Burasage,
            decreases self.stack().len(),
        {
            match self.rpos_related_exec(new_block_type) {
                Some(p) => {
                    let ctx = self.remove(p);
                    if !matches!(ctx.block_type, BlockType::Burasage) {
                        r.push((ctx.block_type, ctx.params));
                    }
                },
                None => {
                    return r;
                },
            }
        }
    }

    /// Close the innermost region an end of kind `block_type` closes: the
    /// kind itself, or a hanging indent when an indent closes. Nothing
    /// happens when no such region is open.
    pub fn find_and_close(&mut self, block_type: &BlockType) -> (r: Option<BlockContext>)
        ensures
            final(self).counter() == old(self).counter(),
            ({
                let p = spec_rpos_close(
                    old(self).stack(),
                    *block_type,
                    old(self).stack().len() - 1,
                );
                match r {
                    Some(ctx) => p >= 0 && ctx_model(ctx) == old(self).stack()[p]
                        && final(self).stack() == old(self).stack().remove(p),
                    None => p < 0 && final(self).stack() == old(self).stack(),
                }
            }),
    {
        match self.rpos_close_exec(block_type) {
            Some(p) => {
                let ctx = self.remove(p);
                Some(ctx)
            },
            None => None,
        }
    }

    /// The next heading anchor number: the counter stepped by the level's
    /// stride (and left unchanged at the top of its range).
    pub fn generate_midashi_id(&mut self, level: MidashiLevel) -> (r: u64)
        ensures
            final(self).stack() == old(self).stack(),
            final(self).counter() == if old(self).counter() <= u64::MAX - spec_midashi_step(
                level,
            ) {
                (old(self).counter() + spec_midashi_step(level)) as u64
            } else {
                old(self).counter()
            },
            r == final(self).counter(),
    {
        let inc: u64 = match level {
            MidashiLevel::O => 100,
            MidashiLevel::Naka => 10,
            MidashiLevel::Ko => 1,
        };
        if self.midashi_id_counter <= u64::MAX - inc {
            self.midashi_id_counter = self.midashi_id_counter + inc;
        }
        self.midashi_id_counter
    }

    /// The opening tag of a region being opened: a heading draws a fresh
    /// anchor number.
    pub fn render_block_start_tag(&mut self, block_type: &BlockType, params: &BlockParams) -> (r:
        String)
        ensures
            final(self).stack() == old(self).stack(),
            *block_type != BlockType::Midashi ==> (final(self).counter() == old(
                self,
            ).counter() && r@ == spec_block_start_tag(*block_type, params.model(), 0)),
            *block_type == BlockType::Midashi ==> (r@ == spec_block_start_tag(
                *block_type,
                params.model(),
                final(self).counter(),
            )),
    {
        let midashi_id: Option<u64> = if matches!(block_type, BlockType::Midashi) {
            let level = match params.level {
                Some(l) => l,
                None => MidashiLevel::O,
            };
            Some(self.generate_midashi_id(level))
        } else {
            None
        };
        generate_block_start_tag(block_type, params, midashi_id)
    }

    /// The closing tag of a region.
    pub fn render_block_end_tag(&self, block_type: &BlockType, params: &BlockParams) -> (r:
        String)
        ensures
            r@ == spec_block_end_tag(*block_type, params.model()),
    {
        generate_block_end_tag(block_type, params)
    }
}

} // verus!
