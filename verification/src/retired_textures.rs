//! GUI textures whose pipelines were dropped: they are freed on the next
//! frame, each once.
use vstd::prelude::*;

verus! {

/// A GUI texture, as the renderer names it.
#[derive(Clone, Copy, Debug, PartialEq, Eq, Structural)]
pub enum TextureKey {
    /// A texture the GUI library allocated.
    Managed(u64),
    /// A texture the application registered.
    User(u64),
}

/// Whether `ids` lists no texture twice.
pub open spec fn distinct(ids: Seq<TextureKey>) -> bool {
    forall|a: int, b: int| 0 <= a < b < ids.len() ==> ids[a] != ids[b]
}

/// Textures waiting to be freed, each listed once, in retirement order.
pub struct RetiredTextures {
    pub ids: Vec<TextureKey>,
}

impl RetiredTextures {
    /// Nothing waits.
    pub fn new() -> (retired: Self)
        ensures
            retired.ids@.len() == 0,
    {
        RetiredTextures { ids: Vec::new() }
    }

    /// Retires `id`, unless it already waits.
    pub fn retire(&mut self, id: TextureKey)
        requires
            distinct(old(self).ids@),
        ensures
            distinct(final(self).ids@),
            final(self).ids@ == (if old(self).ids@.contains(id) {
                old(self).ids@
            } else {
                old(self).ids@.push(id)
            }),
    {
        let mut i: usize = 0;
        while i < self.ids.len()
            invariant
                i <= self.ids.len(),
                self.ids@ == old(self).ids@,
                distinct(self.ids@),
                forall|k: int| 0 <= k < i ==> self.ids@[k] != id,
            decreases self.ids.len() - i,
        {
            if self.ids[i] == id {
                proof {
                    assert(self.ids@[i as int] == id);
                    assert(self.ids@.contains(id));
                }
                return;
            }
            i += 1;
        }
        proof {
            assert(!self.ids@.contains(id));
        }
        self.ids.push(id);
    }

    /// Hands over every waiting texture, in retirement order, to be freed;
    /// none waits afterwards.
    pub fn take_all(&mut self) -> (freed: Vec<TextureKey>)
        ensures
            freed@ == old(self).ids@,
            final(self).ids@.len() == 0,
    {
        let mut freed: Vec<TextureKey> = Vec::new();
        std::mem::swap(&mut freed, &mut self.ids);
        freed
    }
}

} // verus!
