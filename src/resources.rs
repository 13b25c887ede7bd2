use vstd::prelude::*;

verus! {

/// The swapchain's images with one framebuffer and one command buffer per image.
/// Framebuffer `i` draws into image `i`; command buffer `i` renders into framebuffer `i`.
pub struct FrameResources<I, F, C> {
    images: Vec<I>,
    framebuffers: Vec<F>,
    command_buffers: Vec<C>,
}

/// Builds one framebuffer per image, in order.
fn create_framebuffers<I, F, MakeFb: Fn(&I) -> F>(images: &Vec<I>, make_framebuffer: &MakeFb) -> (r: Vec<F>)
    requires
        forall|i: int| 0 <= i < images@.len() ==> make_framebuffer.requires((&images@[i],)),
    ensures
        r@.len() == images@.len(),
        forall|i: int| 0 <= i < images@.len() ==> make_framebuffer.ensures((&images@[i],), #[trigger] r@[i]),
{
    let mut framebuffers: Vec<F> = Vec::new();
    let mut i: usize = 0;
    while i < images.len()
        invariant
            i <= images@.len(),
            framebuffers@.len() == i,
            forall|j: int| 0 <= j < images@.len() ==> make_framebuffer.requires((&images@[j],)),
            forall|j: int| 0 <= j < i ==> make_framebuffer.ensures((&images@[j],), #[trigger] framebuffers@[j]),
        decreases images@.len() - i,
    {
        let framebuffer = make_framebuffer(&images[i]);
        framebuffers.push(framebuffer);
        i += 1;
    }
    framebuffers
}

/// Records one command buffer per framebuffer, in order.
fn create_command_buffers<F, C, Record: Fn(&F) -> C>(framebuffers: &Vec<F>, record: &Record) -> (r: Vec<C>)
    requires
        forall|i: int| 0 <= i < framebuffers@.len() ==> record.requires((&framebuffers@[i],)),
    ensures
        r@.len() == framebuffers@.len(),
        forall|i: int| 0 <= i < framebuffers@.len() ==> record.ensures((&framebuffers@[i],), #[trigger] r@[i]),
{
    let mut command_buffers: Vec<C> = Vec::new();
    let mut i: usize = 0;
    while i < framebuffers.len()
        invariant
            i <= framebuffers@.len(),
            command_buffers@.len() == i,
            forall|j: int| 0 <= j < framebuffers@.len() ==> record.requires((&framebuffers@[j],)),
            forall|j: int| 0 <= j < i ==> record.ensures((&framebuffers@[j],), #[trigger] command_buffers@[j]),
        decreases framebuffers@.len() - i,
    {
        let command_buffer = record(&framebuffers[i]);
        command_buffers.push(command_buffer);
        i += 1;
    }
    command_buffers
}

impl<I, F, C> FrameResources<I, F, C> {
    pub closed spec fn images(self) -> Seq<I> {
        self.images@
    }

    pub closed spec fn framebuffers(self) -> Seq<F> {
        self.framebuffers@
    }

    pub closed spec fn command_buffers(self) -> Seq<C> {
        self.command_buffers@
    }

    /// Exactly one framebuffer and one command buffer per swapchain image.
    pub open spec fn wf(self) -> bool {
        &&& self.framebuffers().len() == self.images().len()
        &&& self.command_buffers().len() == self.images().len()
    }

    /// Framebuffer `i` was made for image `i`, and command buffer `i` recorded for it.
    pub open spec fn built_with<MakeFb: Fn(&I) -> F, Record: Fn(&F) -> C>(
        self,
        make_framebuffer: MakeFb,
        record: Record,
    ) -> bool {
        &&& self.wf()
        &&& forall|i: int|
            0 <= i < self.images().len() ==> make_framebuffer.ensures(
                (&self.images()[i],),
                #[trigger] self.framebuffers()[i],
            )
        &&& forall|i: int|
            0 <= i < self.images().len() ==> record.ensures(
                (&self.framebuffers()[i],),
                #[trigger] self.command_buffers()[i],
            )
    }

    /// Builds the framebuffers for `images`, then a command buffer for each framebuffer.
    pub fn new<MakeFb: Fn(&I) -> F, Record: Fn(&F) -> C>(
        images: Vec<I>,
        make_framebuffer: MakeFb,
        record: Record,
    ) -> (r: Self)
        requires
            forall|i: int| 0 <= i < images@.len() ==> make_framebuffer.requires((&images@[i],)),
            forall|f: &F| record.requires((f,)),
        ensures
            r.images() == images@,
            r.built_with(make_framebuffer, record),
    {
        let framebuffers = create_framebuffers(&images, &make_framebuffer);
        let command_buffers = create_command_buffers(&framebuffers, &record);
        FrameResources { images, framebuffers, command_buffers }
    }

    /// Replaces every per-image resource after the swapchain was rebuilt with `images`:
    /// nothing made for the old images is kept.
    pub fn recreate<MakeFb: Fn(&I) -> F, Record: Fn(&F) -> C>(
        &mut self,
        images: Vec<I>,
        make_framebuffer: MakeFb,
        record: Record,
    )
        requires
            forall|i: int| 0 <= i < images@.len() ==> make_framebuffer.requires((&images@[i],)),
            forall|f: &F| record.requires((f,)),
        ensures
            final(self).images() == images@,
            final(self).built_with(make_framebuffer, record),
    {
        let framebuffers = create_framebuffers(&images, &make_framebuffer);
        let command_buffers = create_command_buffers(&framebuffers, &record);
        *self = FrameResources { images, framebuffers, command_buffers };
    }

    pub fn image_count(&self) -> (r: usize)
        ensures
            r == self.images().len(),
    {
        self.images.len()
    }

    pub fn images_slice(&self) -> (r: &[I])
        ensures
            r@ == self.images(),
    {
        self.images.as_slice()
    }

    pub fn framebuffer(&self, index: usize) -> (r: &F)
        requires
            self.wf(),
            index < self.images().len(),
        ensures
            *r == self.framebuffers()[index as int],
    {
        &self.framebuffers[index]
    }

    /// The command buffer to submit when image `index` was acquired.
    pub fn command_buffer(&self, index: usize) -> (r: &C)
        requires
            self.wf(),
            index < self.images().len(),
        ensures
            *r == self.command_buffers()[index as int],
    {
        &self.command_buffers[index]
    }
}

} // verus!
